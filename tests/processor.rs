use rv32i_rs::rv32i_processor::Rv32iProcessor;

#[test]
fn test_alu() {
    // addi x1, x0, 5
    // addi x2, x0, 12
    // add x3, x1, x2
    let program = vec![0x00500093, 0x00c00113, 0x002081b3];
    let n_instr = program.len() as u32;
    let memory = vec![0; 1024];
    let mut processor = Rv32iProcessor::new(program, memory);

    for i in 0..n_instr {
        processor.exec();
        assert_eq!(processor.pc, (i + 1) * 4);
    }
    assert_eq!(processor.registers[3], 17);
}

#[test]
fn test_load_store() {
    let program = vec![
        0x00500093, // addi x1, x0, 5
        0x00a00113, // addi x2, x0, 10
        0x00000193, // addi x3, x0, 0
        0x00118023, // sb x1, 0(x3)
        0x002180a3, // sb x2, 1(x3)
        0x00018203, // lb x4, 0(x3)
        0x00118283, // lb x5, 1(x3)
        0x00520333, // add x6, x4, x5
        0x00118123, // sb x1, 2(x3)
        0x001181a3, // sb x1, 3(x3)
        0x0011a223, // sw x1, 4(x3)
        0x0001a383, // lw x7, 0(x3)
        0x0041a403, // lw x8, 4(x3)
    ];
    let n_instr = program.len() as u32;
    let memory = vec![0; 1024];
    let mut processor = Rv32iProcessor::new(program, memory);

    for i in 0..n_instr {
        processor.exec();

        assert_eq!(processor.pc, (i + 1) * 4);
    }
    assert_eq!(processor.registers[6], 15);
    assert_eq!(processor.registers[7], 0x0505_0A05);
    assert_eq!(processor.registers[8], 5);
}

#[test]
fn test_branch() {
    let program = vec![
        0x00f00193, // addi x3, x0, 15
        0x00108093, // addi x1, x1, 1
        0xfe309ee3, // bne x1, x3, -4
    ];
    let n_instr = program.len() as u32;
    let memory = vec![0; 1024];
    let mut processor = Rv32iProcessor::new(program, memory);

    for _ in 0..n_instr * 10 {
        processor.exec();
    }
    println!("{:X}", processor.pc);
    assert_eq!(processor.registers[1], 15); // the counter reached 15
}

#[test]
fn test_jalr() {
    // jalr x5, 12(x0)
    let program = vec![0x00c002e7];
    let n_instr = program.len() as u32;
    let memory = vec![0; 1024];
    let mut processor = Rv32iProcessor::new(program, memory);

    for _ in 0..n_instr {
        processor.exec();
    }
    assert_eq!(12, processor.pc);
    assert_eq!(processor.registers[5], 4);
}

#[test]
fn test_jal() {
    // jal x1, 12
    let program = vec![0x00c000ef];
    let n_instr = program.len() as u32;
    let memory = vec![0; 1024];
    let mut processor = Rv32iProcessor::new(program, memory);

    for _ in 0..n_instr {
        processor.exec();
    }
    assert_eq!(processor.registers[1], 4);
}

fn run(program: Vec<u32>, memory: Vec<u32>, steps: usize) -> Rv32iProcessor {
    let mut cpu = Rv32iProcessor::new(program, memory);
    for _ in 0..steps {
        cpu.exec();
    }
    cpu
}

#[test]
fn add_immediates_then_registers_sets_every_register() {
    let cpu = run(vec![0x00500093, 0x00c00113, 0x002081b3], vec![0; 16], 3);
    assert_eq!(cpu.registers[1], 5);
    assert_eq!(cpu.registers[2], 12);
    assert_eq!(cpu.registers[3], 17);
    assert_eq!(cpu.pc, 12);
}

#[test]
fn branch_loop_ends_after_thirty_one_steps() {
    let cpu = run(vec![0x00f00193, 0x00108093, 0xfe309ee3], vec![0; 16], 31);
    assert_eq!(cpu.registers[1], 15);
    assert_eq!(cpu.pc, 12);
}

#[test]
fn jal_moves_pc_to_target() {
    let cpu = run(vec![0x00c000ef], vec![0; 16], 1);
    assert_eq!(cpu.pc, 12);
    assert_eq!(cpu.registers[1], 4);
}

#[test]
fn new_core_starts_zeroed() {
    let cpu = Rv32iProcessor::new(vec![0x13], vec![7, 8]);
    assert_eq!(cpu.registers, vec![0; 32]);
    assert_eq!(cpu.pc, 0);
    assert_eq!(cpu.program, vec![0x13]);
    assert_eq!(cpu.memory, vec![7, 8]);
}

#[test]
fn writes_to_register_zero_are_discarded() {
    // addi x0, x0, 5 ; lui x0, 1
    let cpu = run(vec![0x00500013, 0x00001037], vec![0; 4], 2);
    assert_eq!(cpu.registers[0], 0);
    assert_eq!(cpu.pc, 8);
}

#[test]
fn store_byte_keeps_other_lanes() {
    // addi x1, x0, 0xAB ; sb x1, 1(x0)
    let cpu = run(vec![0x0ab00093, 0x001000a3], vec![0x1122_3344, 0x5566_7788], 2);
    assert_eq!(cpu.memory[0], 0x1122_AB44);
    assert_eq!(cpu.memory[1], 0x5566_7788);
}

#[test]
fn store_half_keeps_other_lane() {
    // addi x1, x0, 0xAB ; sh x1, 2(x0)
    let cpu = run(vec![0x0ab00093, 0x00101123], vec![0x1122_3344], 2);
    assert_eq!(cpu.memory[0], 0x00AB_3344);
}

#[test]
fn store_word_replaces_whole_word() {
    // addi x1, x0, -1 ; sw x1, 4(x0)
    let cpu = run(vec![0xfff00093, 0x00102223], vec![0x1122_3344, 0x5566_7788], 2);
    assert_eq!(cpu.memory, vec![0x1122_3344, 0xFFFF_FFFF]);
}

#[test]
fn byte_store_then_signed_and_unsigned_loads() {
    let program = vec![
        0x08000093, // addi x1, x0, 0x80
        0x001002a3, // sb x1, 5(x0)
        0x00500103, // lb x2, 5(x0)
        0x00504183, // lbu x3, 5(x0)
    ];
    let cpu = run(program, vec![0; 4], 4);
    assert_eq!(cpu.memory[1], 0x0000_8000);
    assert_eq!(cpu.registers[2], 0xFFFF_FF80);
    assert_eq!(cpu.registers[3], 0x80);
}

#[test]
fn half_store_then_signed_and_unsigned_loads() {
    let program = vec![
        0xfff00093, // addi x1, x0, -1
        0x00101323, // sh x1, 6(x0)
        0x00601103, // lh x2, 6(x0)
        0x00605183, // lhu x3, 6(x0)
    ];
    let cpu = run(program, vec![0; 4], 4);
    assert_eq!(cpu.memory[1], 0xFFFF_0000);
    assert_eq!(cpu.registers[2], 0xFFFF_FFFF);
    assert_eq!(cpu.registers[3], 0xFFFF);
}

#[test]
fn illegal_with_rd_zero_changes_nothing_but_pc() {
    // addi x5, x0, 7 ; illegal with rd = 0
    let cpu = run(vec![0x00700293, 0x0000007f], vec![0; 4], 2);
    assert_eq!(cpu.registers[5], 7);
    let mut expected = vec![0; 32];
    expected[5] = 7;
    assert_eq!(cpu.registers, expected);
    assert_eq!(cpu.pc, 8);
    assert_eq!(cpu.memory, vec![0; 4]);
}

#[test]
fn illegal_with_rd_writes_zero() {
    // addi x5, x0, 7 ; illegal with rd = 5
    let cpu = run(vec![0x00700293, 0x000002ff], vec![0; 4], 2);
    assert_eq!(cpu.registers[5], 0);
    assert_eq!(cpu.pc, 8);
}

#[test]
fn lui_and_auipc() {
    // lui x8, 1339 ; auipc x1, 1
    let cpu = run(vec![0x0053b437, 0x00001097], vec![0; 4], 2);
    assert_eq!(cpu.registers[8], 0x0053_b000);
    assert_eq!(cpu.registers[1], 4 + 0x1000);
}

#[test]
fn jalr_clears_low_bit_of_target() {
    // addi x1, x0, 13 ; jalr x5, 0(x1)
    let cpu = run(vec![0x00d00093, 0x000082e7], vec![0; 4], 2);
    assert_eq!(cpu.pc, 12);
    assert_eq!(cpu.registers[5], 8);
}

#[test]
fn branch_not_taken_falls_through() {
    // addi x1, x0, 1 ; beq x1, x0, 8
    let cpu = run(vec![0x00100093, 0x00008463], vec![0; 4], 2);
    assert_eq!(cpu.pc, 8);
}

#[test]
fn signed_and_unsigned_branches() {
    // addi x1, x0, -1 ; blt x1, x0, 8 (taken) ; (skipped) ; bltu x1, x0, 8 (not taken)
    let program = vec![0xfff00093, 0x0000c463, 0x00000013, 0x0000e463];
    let mut cpu = run(program, vec![0; 4], 2);
    assert_eq!(cpu.pc, 12);
    cpu.exec();
    assert_eq!(cpu.pc, 16);
}

#[test]
fn fetch_past_program_leaves_state() {
    let mut cpu = run(vec![0x00500093], vec![0; 4], 1);
    assert_eq!(cpu.pc, 4);
    cpu.exec();
    assert_eq!(cpu.pc, 4);
    assert_eq!(cpu.registers[1], 5);
}

#[test]
fn access_outside_memory_reads_zero_and_writes_nothing() {
    let program = vec![
        0x00500093, // addi x1, x0, 5
        0x00102423, // sw x1, 8(x0)
        0x00802103, // lw x2, 8(x0)
    ];
    let cpu = run(program, vec![9], 3);
    assert_eq!(cpu.memory, vec![9]);
    assert_eq!(cpu.registers[2], 0);
    assert_eq!(cpu.pc, 12);
}
