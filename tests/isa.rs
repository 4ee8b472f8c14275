use rv32i_rs::rv32i_isa::{InstrType, Rv32iIsa};
use rv32i_rs::utils;

#[test]
fn test_parse_imm_itype() {
    // addi x5, x2, 125
    let instr: u32 = 0x07d10293;
    let bits = utils::u32_to_bitvec(instr);
    assert_eq!(Rv32iIsa::parse_imm_itype(&bits), 125u32);
}

#[test]
fn test_parse_imm_stype() {
    // sw x5, 88(x2)
    let instr: u32 = 0x04512c23;
    let bits = utils::u32_to_bitvec(instr);
    assert_eq!(Rv32iIsa::parse_imm_stype(&bits), 88u32);
}

#[test]
fn test_parse_imm_btype() {
    // beq x5, x2, 74
    let instr: u32 = 0x04228563;
    let bits = utils::u32_to_bitvec(instr);
    assert_eq!(Rv32iIsa::parse_imm_btype(&bits), 74u32);
}

#[test]
fn test_parse_imm_jtype() {
    // jal x8, 44
    let instr: u32 = 0x02c0046f;
    let bits = utils::u32_to_bitvec(instr);
    assert_eq!(Rv32iIsa::parse_imm_jtype(&bits), 44u32);
}

#[test]
fn test_parse_imm_utype() {
    // lui x8, 1339: 1339 is the [31:12] immediate value
    let instr: u32 = 0x0053b437;
    let bits = utils::u32_to_bitvec(instr);

    let mut imm_bitvec = Vec::new();
    imm_bitvec.extend_from_slice(&bits[12..=31]);
    imm_bitvec.extend_from_slice(&[0u32; 12]);

    assert_eq!(
        Rv32iIsa::parse_imm_utype(&bits),
        0b00000000_01010011_10110000_00000000u32
    );
}

#[test]
fn test_integration_test1() {
    // sub x5, x1, x2
    let mut isa = Rv32iIsa::new(0x402082b3);

    isa.parse_instr();
    assert_eq!(isa.o_instrtype, InstrType::AluRtype);
    assert_eq!(isa.o_rs1, 1u8);
    assert_eq!(isa.o_rs2, 2u8);
    assert_eq!(isa.o_rd, 5u8);
    assert_eq!(isa.o_funct3, 0x0);
    assert_eq!(isa.o_funct7, 0x20);
}

#[test]
fn test_integration_test2() {
    // beq x5, x2, 74
    let mut isa = Rv32iIsa::new(0x04228563);

    isa.parse_instr();
    assert_eq!(isa.o_instrtype, InstrType::BranchBtype);
    assert_eq!(isa.o_imm, 74u32);
    assert_eq!(isa.o_rs1, 5u8);
    assert_eq!(isa.o_rs2, 2u8);
    assert_eq!(isa.o_funct3, 0x0);
}

fn decoded(w: u32) -> Rv32iIsa {
    let mut isa = Rv32iIsa::new(w);
    isa.parse_instr();
    isa
}

#[test]
fn negative_immediates_are_sign_extended() {
    // addi x1, x0, -1
    assert_eq!(decoded(0xfff00093).o_imm, 0xFFFF_FFFF);
    // sw x1, -4(x2)
    assert_eq!(decoded(0xfe112e23).o_imm, (-4i32) as u32);
    // bne x1, x3, -4
    assert_eq!(decoded(0xfe309ee3).o_imm, (-4i32) as u32);
    // jal x0, -8
    assert_eq!(decoded(0xff9ff06f).o_imm, (-8i32) as u32);
}

#[test]
fn families_by_opcode() {
    assert_eq!(decoded(0x0000_0013).o_instrtype, InstrType::AluItype);
    assert_eq!(decoded(0x0000_0003).o_instrtype, InstrType::LoadItype);
    assert_eq!(decoded(0x0000_0023).o_instrtype, InstrType::StoreStype);
    assert_eq!(decoded(0x0000_006f).o_instrtype, InstrType::JalJtype);
    assert_eq!(decoded(0x0000_0067).o_instrtype, InstrType::JalrItype);
    assert_eq!(decoded(0x0000_0037).o_instrtype, InstrType::LuiUtype);
    assert_eq!(decoded(0x0000_0017).o_instrtype, InstrType::AuipcUtype);
    assert_eq!(decoded(0x0000_0073).o_instrtype, InstrType::SystemItype);
}

#[test]
fn illegal_opcode_still_extracts_fields() {
    let isa = decoded(0xfe30_9eff);
    assert_eq!(isa.o_instrtype, InstrType::Illegal);
    assert_eq!(isa.o_imm, 0);
    assert_eq!(isa.o_rd, 0x1d);
    assert_eq!(isa.o_funct3, 1);
    assert_eq!(isa.o_rs1, 1);
    assert_eq!(isa.o_rs2, 3);
    assert_eq!(isa.o_funct7, 0x7f);
}

#[test]
fn decode_then_reencode_gives_the_word() {
    // sw x5, 88(x2): S-shape fields placed back
    let isa = decoded(0x04512c23);
    let imm = isa.o_imm;
    let w = (((imm >> 5) & 0x7f) << 25)
        | ((isa.o_rs2 as u32) << 20)
        | ((isa.o_rs1 as u32) << 15)
        | ((isa.o_funct3 as u32) << 12)
        | ((imm & 0x1f) << 7)
        | 0x23;
    assert_eq!(w, 0x04512c23);
    // jal x0, -8: J-shape fields placed back
    let isa = decoded(0xff9ff06f);
    let imm = isa.o_imm;
    let w = (((imm >> 20) & 1) << 31)
        | (((imm >> 1) & 0x3ff) << 21)
        | (((imm >> 11) & 1) << 20)
        | (imm & 0x000f_f000)
        | ((isa.o_rd as u32) << 7)
        | 0x6f;
    assert_eq!(w, 0xff9ff06f);
}
