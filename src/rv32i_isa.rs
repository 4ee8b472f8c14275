//! The instruction decoder: family, register indices, function fields and the
//! sign-extended immediate of a 32-bit instruction word.

use crate::utils::{bits_value, bitvec_to_u32, is_bit_seq};
use vstd::prelude::*;

verus! {

/// The instruction family that an opcode selects.
#[derive(Debug, PartialEq, Eq, Clone, Copy, Structural)]
pub enum InstrType {
    AluRtype,
    AluItype,
    LoadItype,
    StoreStype,
    BranchBtype,
    JalJtype,
    JalrItype,
    LuiUtype,
    AuipcUtype,
    SystemItype,
    Illegal,
}

/// The family selected by the low seven bits of `w`.
pub open spec fn instr_type_of(w: u32) -> InstrType {
    let opcode = w & 0x7f;
    if opcode == 0x33 {
        InstrType::AluRtype
    } else if opcode == 0x13 {
        InstrType::AluItype
    } else if opcode == 0x03 {
        InstrType::LoadItype
    } else if opcode == 0x23 {
        InstrType::StoreStype
    } else if opcode == 0x63 {
        InstrType::BranchBtype
    } else if opcode == 0x6f {
        InstrType::JalJtype
    } else if opcode == 0x67 {
        InstrType::JalrItype
    } else if opcode == 0x37 {
        InstrType::LuiUtype
    } else if opcode == 0x17 {
        InstrType::AuipcUtype
    } else if opcode == 0x73 {
        InstrType::SystemItype
    } else {
        InstrType::Illegal
    }
}

/// The opcode of a family; 0 for `Illegal`, which has none.
pub open spec fn opcode_of(t: InstrType) -> u32 {
    match t {
        InstrType::AluRtype => 0x33,
        InstrType::AluItype => 0x13,
        InstrType::LoadItype => 0x03,
        InstrType::StoreStype => 0x23,
        InstrType::BranchBtype => 0x63,
        InstrType::JalJtype => 0x6f,
        InstrType::JalrItype => 0x67,
        InstrType::LuiUtype => 0x37,
        InstrType::AuipcUtype => 0x17,
        InstrType::SystemItype => 0x73,
        InstrType::Illegal => 0,
    }
}

/// All ones from bit `n` upwards when bit 31 of `w` is set, else zero.
pub open spec fn sign_fill(w: u32, n: u32) -> u32 {
    if w >> 31u32 == 1 {
        0xFFFF_FFFFu32 << n
    } else {
        0
    }
}

/// The I-shape immediate: bits 10..0 from w[30:20], sign-extended from w[31].
pub open spec fn imm_i(w: u32) -> u32 {
    sign_fill(w, 11) | ((w >> 20u32) & 0x7ff)
}

/// The S-shape immediate: bits 11..5 from w[31:25], bits 4..0 from w[11:7].
pub open spec fn imm_s(w: u32) -> u32 {
    sign_fill(w, 11) | (((w >> 25u32) & 0x3f) << 5u32) | ((w >> 7u32) & 0x1f)
}

/// The B-shape immediate: bit 12 from w[31], bit 11 from w[7], bits 10..5 from
/// w[30:25], bits 4..1 from w[11:8], bit 0 clear.
pub open spec fn imm_b(w: u32) -> u32 {
    sign_fill(w, 12) | (((w >> 7u32) & 1) << 11u32) | (((w >> 25u32) & 0x3f) << 5u32) | (((w
        >> 8u32) & 0xf) << 1u32)
}

/// The J-shape immediate: bit 20 from w[31], bits 19..12 from w[19:12], bit 11
/// from w[20], bits 10..1 from w[30:21], bit 0 clear.
pub open spec fn imm_j(w: u32) -> u32 {
    sign_fill(w, 20) | (w & 0x000f_f000) | (((w >> 20u32) & 1) << 11u32) | (((w >> 21u32)
        & 0x3ff) << 1u32)
}

/// The U-shape immediate: bits 31..12 of `w`, the low twelve bits clear.
pub open spec fn imm_u(w: u32) -> u32 {
    w & 0xffff_f000
}

/// The immediate of `w`, by the encoding shape of its family.
pub open spec fn imm_of(w: u32) -> u32 {
    match instr_type_of(w) {
        InstrType::AluItype | InstrType::LoadItype | InstrType::JalrItype
        | InstrType::SystemItype => imm_i(w),
        InstrType::StoreStype => imm_s(w),
        InstrType::BranchBtype => imm_b(w),
        InstrType::JalJtype => imm_j(w),
        InstrType::LuiUtype | InstrType::AuipcUtype => imm_u(w),
        _ => 0,
    }
}

/// The destination register index, w[11:7].
pub open spec fn rd_of(w: u32) -> u8 {
    ((w >> 7u32) & 0x1f) as u8
}

/// The three-bit function field, w[14:12].
pub open spec fn funct3_of(w: u32) -> u8 {
    ((w >> 12u32) & 0x7) as u8
}

/// The first source register index, w[19:15].
pub open spec fn rs1_of(w: u32) -> u8 {
    ((w >> 15u32) & 0x1f) as u8
}

/// The second source register index, w[24:20].
pub open spec fn rs2_of(w: u32) -> u8 {
    ((w >> 20u32) & 0x1f) as u8
}

/// The seven-bit function field, w[31:25].
pub open spec fn funct7_of(w: u32) -> u8 {
    ((w >> 25u32) & 0x7f) as u8
}

/// The decoded record of `w`.
pub open spec fn decode(w: u32) -> Rv32iIsa {
    Rv32iIsa {
        i_instruction: w,
        o_instrtype: instr_type_of(w),
        o_imm: imm_of(w),
        o_rs1: rs1_of(w),
        o_rs2: rs2_of(w),
        o_rd: rd_of(w),
        o_funct3: funct3_of(w),
        o_funct7: funct7_of(w),
    }
}

/// The instruction word that holds the fields of `d` where the encoding shape
/// of its family places them.
pub open spec fn encode(d: Rv32iIsa) -> u32 {
    let op = opcode_of(d.o_instrtype);
    let rd = d.o_rd as u32;
    let f3 = d.o_funct3 as u32;
    let rs1 = d.o_rs1 as u32;
    let rs2 = d.o_rs2 as u32;
    let f7 = d.o_funct7 as u32;
    let imm = d.o_imm;
    match d.o_instrtype {
        InstrType::AluRtype => encode_r(op, rd, f3, rs1, rs2, f7),
        InstrType::AluItype | InstrType::LoadItype | InstrType::JalrItype
        | InstrType::SystemItype => encode_i(op, rd, f3, rs1, imm),
        InstrType::StoreStype => encode_s(op, f3, rs1, rs2, imm),
        InstrType::BranchBtype => encode_b(op, f3, rs1, rs2, imm),
        InstrType::JalJtype => encode_j(op, rd, imm),
        InstrType::LuiUtype | InstrType::AuipcUtype => encode_u(op, rd, imm),
        InstrType::Illegal => 0,
    }
}

/// An R-shape word: funct7, rs2, rs1, funct3, rd and opcode.
pub open spec fn encode_r(op: u32, rd: u32, f3: u32, rs1: u32, rs2: u32, f7: u32) -> u32 {
    (f7 << 25u32) | (rs2 << 20u32) | (rs1 << 15u32) | (f3 << 12u32) | (rd << 7u32) | op
}

/// An I-shape word: the low twelve bits of the immediate, rs1, funct3, rd
/// and opcode.
pub open spec fn encode_i(op: u32, rd: u32, f3: u32, rs1: u32, imm: u32) -> u32 {
    ((imm & 0xfff) << 20u32) | (rs1 << 15u32) | (f3 << 12u32) | (rd << 7u32) | op
}

/// An S-shape word: immediate bits 11..5 and 4..0 around rs2, rs1 and funct3.
pub open spec fn encode_s(op: u32, f3: u32, rs1: u32, rs2: u32, imm: u32) -> u32 {
    (((imm >> 5u32) & 0x7f) << 25u32) | (rs2 << 20u32) | (rs1 << 15u32) | (f3 << 12u32) | ((imm
        & 0x1f) << 7u32) | op
}

/// A B-shape word: immediate bits 12, 10..5, 4..1 and 11 around rs2, rs1 and
/// funct3.
pub open spec fn encode_b(op: u32, f3: u32, rs1: u32, rs2: u32, imm: u32) -> u32 {
    (((imm >> 12u32) & 1) << 31u32) | (((imm >> 5u32) & 0x3f) << 25u32) | (rs2 << 20u32) | (rs1
        << 15u32) | (f3 << 12u32) | (((imm >> 1u32) & 0xf) << 8u32) | (((imm >> 11u32) & 1)
        << 7u32) | op
}

/// A J-shape word: immediate bits 20, 10..1, 11 and 19..12, then rd.
pub open spec fn encode_j(op: u32, rd: u32, imm: u32) -> u32 {
    (((imm >> 20u32) & 1) << 31u32) | (((imm >> 1u32) & 0x3ff) << 21u32) | (((imm >> 11u32) & 1)
        << 20u32) | (imm & 0x000f_f000) | (rd << 7u32) | op
}

/// A U-shape word: immediate bits 31..12, then rd.
pub open spec fn encode_u(op: u32, rd: u32, imm: u32) -> u32 {
    (imm & 0xffff_f000) | (rd << 7u32) | op
}

/// Each encoding shape puts back every bit that decoding takes out.
proof fn lemma_shapes_round_trip(w: u32)
    by (bit_vector)
    ensures
        encode_r(w & 0x7f, (w >> 7u32) & 0x1f, (w >> 12u32) & 0x7, (w >> 15u32) & 0x1f, (w
            >> 20u32) & 0x1f, (w >> 25u32) & 0x7f) == w,
        encode_i(w & 0x7f, (w >> 7u32) & 0x1f, (w >> 12u32) & 0x7, (w >> 15u32) & 0x1f, imm_i(w))
            == w,
        encode_s(w & 0x7f, (w >> 12u32) & 0x7, (w >> 15u32) & 0x1f, (w >> 20u32) & 0x1f, imm_s(w))
            == w,
        encode_b(w & 0x7f, (w >> 12u32) & 0x7, (w >> 15u32) & 0x1f, (w >> 20u32) & 0x1f, imm_b(w))
            == w,
        encode_j(w & 0x7f, (w >> 7u32) & 0x1f, imm_j(w)) == w,
        encode_u(w & 0x7f, (w >> 7u32) & 0x1f, imm_u(w)) == w,
{
}

/// Decoding loses nothing: for every word whose opcode names a family,
/// placing the decoded fields back where that family's encoding shape puts
/// them gives the word again.
pub proof fn lemma_decode_round_trip(w: u32)
    requires
        instr_type_of(w) != InstrType::Illegal,
    ensures
        encode(decode(w)) == w,
{
    lemma_field_widths(w);
    lemma_shapes_round_trip(w);
}

/// The decoder's input word and the record decoded from it.
#[derive(Debug, PartialEq, Eq, Clone, Copy, Structural)]
pub struct Rv32iIsa {
    pub i_instruction: u32,
    pub o_instrtype: InstrType,
    pub o_imm: u32,
    pub o_rs1: u8,
    pub o_rs2: u8,
    pub o_rd: u8,
    pub o_funct3: u8,
    pub o_funct7: u8,
}

/// The field values that fit their widths: five bits for the register
/// indices, three for funct3, seven for funct7.
pub(crate) proof fn lemma_field_widths(w: u32)
    by (bit_vector)
    ensures
        (w >> 7u32) & 0x1f < 32,
        (w >> 12u32) & 0x7 < 8,
        (w >> 15u32) & 0x1f < 32,
        (w >> 20u32) & 0x1f < 32,
        (w >> 25u32) & 0x7f < 128,
{
}

/// Bits 31..12 of `w` in place, the low twelve bits clear.
fn parse_imm_u_word(w: u32) -> (imm: u32)
    ensures
        imm == imm_u(w),
{
    w & 0xffff_f000
}

/// All ones from bit `n` upwards when bit 31 of `w` is set, else zero.
fn sign_fill_word(w: u32, n: u32) -> (fill: u32)
    requires
        n < 32,
    ensures
        fill == sign_fill(w, n),
{
    if w >> 31 == 1 {
        0xFFFF_FFFFu32 << n
    } else {
        0
    }
}

/// The I-shape immediate of `w`.
fn parse_imm_i_word(w: u32) -> (imm: u32)
    ensures
        imm == imm_i(w),
{
    sign_fill_word(w, 11) | ((w >> 20) & 0x7ff)
}

/// The S-shape immediate of `w`.
fn parse_imm_s_word(w: u32) -> (imm: u32)
    ensures
        imm == imm_s(w),
{
    sign_fill_word(w, 11) | (((w >> 25) & 0x3f) << 5) | ((w >> 7) & 0x1f)
}

/// The B-shape immediate of `w`.
fn parse_imm_b_word(w: u32) -> (imm: u32)
    ensures
        imm == imm_b(w),
{
    sign_fill_word(w, 12) | (((w >> 7) & 1) << 11) | (((w >> 25) & 0x3f) << 5) | (((w >> 8)
        & 0xf) << 1)
}

/// The J-shape immediate of `w`.
fn parse_imm_j_word(w: u32) -> (imm: u32)
    ensures
        imm == imm_j(w),
{
    sign_fill_word(w, 20) | (w & 0x000f_f000) | (((w >> 20) & 1) << 11) | (((w >> 21) & 0x3ff)
        << 1)
}

impl Rv32iIsa {
    /// A decoder holding `instruction`, its outputs not yet computed.
    pub fn new(instruction: u32) -> (isa: Rv32iIsa)
        ensures
            isa.i_instruction == instruction,
            isa.o_instrtype == InstrType::Illegal,
            isa.o_imm == 0,
            isa.o_rs1 == 0,
            isa.o_rs2 == 0,
            isa.o_rd == 0,
            isa.o_funct3 == 0,
            isa.o_funct7 == 0,
    {
        Rv32iIsa {
            i_instruction: instruction,
            o_instrtype: InstrType::Illegal,
            o_imm: 0,
            o_rs1: 0,
            o_rs2: 0,
            o_rd: 0,
            o_funct3: 0,
            o_funct7: 0,
        }
    }

    /// Decodes the held instruction word into the output fields.
    pub fn parse_instr(&mut self)
        ensures
            *final(self) == decode(old(self).i_instruction),
    {
        let w = self.i_instruction;
        let instrtype = match w & 0x7f {
            0x33 => InstrType::AluRtype,
            0x13 => InstrType::AluItype,
            0x03 => InstrType::LoadItype,
            0x23 => InstrType::StoreStype,
            0x63 => InstrType::BranchBtype,
            0x6f => InstrType::JalJtype,
            0x67 => InstrType::JalrItype,
            0x37 => InstrType::LuiUtype,
            0x17 => InstrType::AuipcUtype,
            0x73 => InstrType::SystemItype,
            _ => InstrType::Illegal,
        };
        self.o_instrtype = instrtype;
        self.o_imm = match instrtype {
            InstrType::AluItype | InstrType::LoadItype | InstrType::JalrItype
            | InstrType::SystemItype => parse_imm_i_word(w),
            InstrType::StoreStype => parse_imm_s_word(w),
            InstrType::BranchBtype => parse_imm_b_word(w),
            InstrType::JalJtype => parse_imm_j_word(w),
            InstrType::LuiUtype | InstrType::AuipcUtype => parse_imm_u_word(w),
            _ => 0,
        };
        proof {
            lemma_field_widths(w);
        }
        self.o_rs1 = ((w >> 15) & 0x1f) as u8;
        self.o_rs2 = ((w >> 20) & 0x1f) as u8;
        self.o_rd = ((w >> 7) & 0x1f) as u8;
        self.o_funct3 = ((w >> 12) & 0x7) as u8;
        self.o_funct7 = ((w >> 25) & 0x7f) as u8;
    }

    /// The I-shape immediate of the word whose bits, least significant
    /// first, are `bits`.
    pub fn parse_imm_itype(bits: &[u32]) -> (imm: u32)
        requires
            bits@.len() == 32,
            is_bit_seq(bits@),
        ensures
            imm == imm_i(bits_value(bits@) as u32),
    {
        parse_imm_i_word(bitvec_to_u32(bits))
    }

    /// The S-shape immediate of the word whose bits are `bits`.
    pub fn parse_imm_stype(bits: &[u32]) -> (imm: u32)
        requires
            bits@.len() == 32,
            is_bit_seq(bits@),
        ensures
            imm == imm_s(bits_value(bits@) as u32),
    {
        parse_imm_s_word(bitvec_to_u32(bits))
    }

    /// The B-shape immediate of the word whose bits are `bits`.
    pub fn parse_imm_btype(bits: &[u32]) -> (imm: u32)
        requires
            bits@.len() == 32,
            is_bit_seq(bits@),
        ensures
            imm == imm_b(bits_value(bits@) as u32),
    {
        parse_imm_b_word(bitvec_to_u32(bits))
    }

    /// The J-shape immediate of the word whose bits are `bits`.
    pub fn parse_imm_jtype(bits: &[u32]) -> (imm: u32)
        requires
            bits@.len() == 32,
            is_bit_seq(bits@),
        ensures
            imm == imm_j(bits_value(bits@) as u32),
    {
        parse_imm_j_word(bitvec_to_u32(bits))
    }

    /// The U-shape immediate of the word whose bits are `bits`.
    pub fn parse_imm_utype(bits: &[u32]) -> (imm: u32)
        requires
            bits@.len() == 32,
            is_bit_seq(bits@),
        ensures
            imm == imm_u(bits_value(bits@) as u32),
    {
        parse_imm_u_word(bitvec_to_u32(bits))
    }
}

} // verus!
