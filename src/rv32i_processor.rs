//! The processor: architectural state and the step that executes one whole
//! instruction through the decoder and the ALU.

use crate::rv32i_alu::{alu_result, signed_lt, Rv32iAlu};
use crate::rv32i_isa::{decode, lemma_field_widths, InstrType, Rv32iIsa};
use vstd::prelude::*;

verus! {

/// The architectural state: register file, program counter, program and
/// data memory, the last two as 32-bit words.
pub struct CpuState {
    pub registers: Seq<u32>,
    pub pc: u32,
    pub program: Seq<u32>,
    pub memory: Seq<u32>,
}

impl CpuState {
    /// Thirty-two registers, the first of which reads as zero.
    pub open spec fn wf(self) -> bool {
        &&& self.registers.len() == 32
        &&& self.registers[0] == 0
    }

    /// The program counter names a word of the program.
    pub open spec fn can_fetch(self) -> bool {
        self.pc / 4 < self.program.len()
    }

    /// The word at the program counter.
    pub open spec fn fetched(self) -> u32 {
        self.program[(self.pc / 4) as int]
    }

    /// The instruction at the program counter, decoded.
    pub open spec fn current(self) -> Rv32iIsa {
        decode(self.fetched())
    }

    /// The first ALU operand of `d`: register rs1.
    pub open spec fn operand1(self, d: Rv32iIsa) -> u32 {
        self.registers[d.o_rs1 as int]
    }

    /// The second ALU operand of `d`: register rs2 for the register-register
    /// and branch families, the immediate otherwise.
    pub open spec fn operand2(self, d: Rv32iIsa) -> u32 {
        if d.o_instrtype == InstrType::AluRtype || d.o_instrtype == InstrType::BranchBtype {
            self.registers[d.o_rs2 as int]
        } else {
            d.o_imm
        }
    }

    /// The byte address that a load or store `d` accesses: rs1 plus the
    /// immediate, modulo 2^32.
    pub open spec fn effective_address(self, d: Rv32iIsa) -> u32 {
        self.operand1(d).wrapping_add(d.o_imm)
    }

    /// The memory word that a load or store `d` accesses.
    pub open spec fn word_index(self, d: Rv32iIsa) -> int {
        (self.effective_address(d) / 4) as int
    }
}

/// A byte access: funct3 0 or 4.
pub open spec fn is_byte_access(funct3: u8) -> bool {
    funct3 == 0 || funct3 == 4
}

/// A half-word access: funct3 1 or 5.
pub open spec fn is_half_access(funct3: u8) -> bool {
    funct3 == 1 || funct3 == 5
}

/// The number of bytes that an access with `funct3` reads or writes.
pub open spec fn access_width(funct3: u8) -> nat {
    if is_byte_access(funct3) {
        1
    } else if is_half_access(funct3) {
        2
    } else {
        4
    }
}

/// Bit 2 of funct3 clear: the loaded value is sign-extended.
pub open spec fn is_signed_access(funct3: u8) -> bool {
    (funct3 / 4) % 2 == 0
}

/// The position of the lowest bit of the lane that an access with `funct3`
/// at byte address `ea` touches within its word.
pub open spec fn lane_shift(ea: u32, funct3: u8) -> u32 {
    if is_byte_access(funct3) {
        (ea & 3) << 3u32
    } else if is_half_access(funct3) {
        (ea & 2) << 3u32
    } else {
        0
    }
}

/// `v` cut to the width of `funct3` and extended back to 32 bits, with
/// copies of its top bit where the access is signed, with zeros otherwise.
pub open spec fn narrowed(v: u32, funct3: u8) -> u32 {
    if is_byte_access(funct3) {
        if is_signed_access(funct3) && v & 0x80 != 0 {
            (v & 0xff) | 0xffff_ff00
        } else {
            v & 0xff
        }
    } else if is_half_access(funct3) {
        if is_signed_access(funct3) && v & 0x8000 != 0 {
            (v & 0xffff) | 0xffff_0000
        } else {
            v & 0xffff
        }
    } else {
        v
    }
}

/// The value that a load with `funct3` at byte address `ea` reads from the
/// memory word `word`.
pub open spec fn load_value(word: u32, ea: u32, funct3: u8) -> u32 {
    narrowed(word >> lane_shift(ea, funct3), funct3)
}

/// The bits of a word that a store with `funct3` at byte address `ea` writes.
pub open spec fn store_mask(ea: u32, funct3: u8) -> u32 {
    if is_byte_access(funct3) {
        0xffu32 << lane_shift(ea, funct3)
    } else if is_half_access(funct3) {
        0xffffu32 << lane_shift(ea, funct3)
    } else {
        0xffff_ffff
    }
}

/// The memory word `word` after a store of `v` with `funct3` at byte address
/// `ea`: the low bytes of `v` in the addressed lane, every other bit kept.
pub open spec fn store_word(word: u32, ea: u32, funct3: u8, v: u32) -> u32 {
    (word & !store_mask(ea, funct3)) | ((v << lane_shift(ea, funct3)) & store_mask(ea, funct3))
}

/// Whether a branch with `funct3` on operands `a` and `b` is taken.
pub open spec fn branch_taken(funct3: u8, a: u32, b: u32) -> bool {
    if funct3 == 0 {
        a == b
    } else if funct3 == 1 {
        a != b
    } else if funct3 == 4 {
        signed_lt(a, b)
    } else if funct3 == 5 {
        !signed_lt(a, b)
    } else if funct3 == 6 {
        a < b
    } else if funct3 == 7 {
        !(a < b)
    } else {
        false
    }
}

/// Whether `d`, executed with operands `a` and `b`, replaces the program
/// counter by a computed target.
pub open spec fn redirects(d: Rv32iIsa, a: u32, b: u32) -> bool {
    ||| d.o_instrtype == InstrType::JalJtype
    ||| d.o_instrtype == InstrType::JalrItype
    ||| d.o_instrtype == InstrType::BranchBtype && branch_taken(d.o_funct3, a, b)
}

/// The state after one instruction. Where the program counter names no word
/// of the program the state stays as it is; a load or store outside memory
/// reads zero and writes nothing.
pub open spec fn step(s: CpuState) -> CpuState {
    if !s.can_fetch() {
        s
    } else {
        let d = s.current();
        let t = d.o_instrtype;
        let a = s.operand1(d);
        let b = s.operand2(d);
        let ea = s.effective_address(d);
        let wi = s.word_index(d);
        let in_memory = wi < s.memory.len();
        let loaded = if t == InstrType::LoadItype && in_memory {
            load_value(s.memory[wi], ea, d.o_funct3)
        } else {
            0
        };
        let memory = if t == InstrType::StoreStype && in_memory {
            s.memory.update(
                wi,
                store_word(s.memory[wi], ea, d.o_funct3, s.registers[d.o_rs2 as int]),
            )
        } else {
            s.memory
        };
        let result = match t {
            InstrType::JalJtype | InstrType::JalrItype => s.pc.wrapping_add(4),
            InstrType::LuiUtype => d.o_imm,
            InstrType::AuipcUtype => s.pc.wrapping_add(d.o_imm),
            InstrType::LoadItype => loaded,
            InstrType::Illegal => 0,
            _ => alu_result(a, b, d.o_funct3, d.o_funct7, d.i_instruction),
        };
        let registers = if d.o_rd != 0 && t != InstrType::StoreStype && t
            != InstrType::BranchBtype {
            s.registers.update(d.o_rd as int, result)
        } else {
            s.registers
        };
        let pc = if t == InstrType::JalJtype || (t == InstrType::BranchBtype && branch_taken(
            d.o_funct3,
            a,
            b,
        )) {
            s.pc.wrapping_add(d.o_imm)
        } else if t == InstrType::JalrItype {
            a.wrapping_add(d.o_imm) & 0xffff_fffe
        } else {
            s.pc.wrapping_add(4)
        };
        CpuState { registers, pc, program: s.program, memory }
    }
}

/// The state in which a core starts: every register zero, the program
/// counter at 0.
pub open spec fn initial_state(program: Seq<u32>, memory: Seq<u32>) -> CpuState {
    CpuState { registers: Seq::new(32, |i: int| 0u32), pc: 0, program, memory }
}

/// The state after `n` steps from `s`.
pub open spec fn run(s: CpuState, n: nat) -> CpuState
    decreases n,
{
    if n == 0 {
        s
    } else {
        step(run(s, (n - 1) as nat))
    }
}

/// An RV32I core: its register file, program counter, program and memory.
pub struct Rv32iProcessor {
    pub registers: Vec<u32>,
    pub pc: u32,
    pub program: Vec<u32>,
    pub memory: Vec<u32>,
}

impl View for Rv32iProcessor {
    type V = CpuState;

    open spec fn view(&self) -> CpuState {
        CpuState {
            registers: self.registers@,
            pc: self.pc,
            program: self.program@,
            memory: self.memory@,
        }
    }
}

/// `n` zero words.
fn zero_words(n: usize) -> (v: Vec<u32>)
    ensures
        v@ == Seq::new(n as nat, |i: int| 0u32),
{
    let mut v: Vec<u32> = Vec::new();
    let mut i: usize = 0;
    while i < n
        invariant
            i <= n,
            v@ == Seq::new(i as nat, |k: int| 0u32),
        decreases n - i,
    {
        v.push(0);
        i += 1;
        assert(v@ =~= Seq::new(i as nat, |k: int| 0u32));
    }
    v
}

/// The lowest bit of the lane that an access with `funct3` at `ea` touches.
fn lane_shift_of(ea: u32, funct3: u8) -> (sh: u32)
    ensures
        sh == lane_shift(ea, funct3),
        sh < 32,
{
    proof {
        lemma_lane_shift_bound(ea);
    }
    if funct3 == 0 || funct3 == 4 {
        (ea & 3) << 3
    } else if funct3 == 1 || funct3 == 5 {
        (ea & 2) << 3
    } else {
        0
    }
}

/// Lane positions lie inside the word.
proof fn lemma_lane_shift_bound(ea: u32)
    by (bit_vector)
    ensures
        (ea & 3) << 3u32 < 32,
        (ea & 2) << 3u32 < 32,
{
}

/// The loaded value: the addressed lane of `word`, extended per `funct3`.
fn load_lane(word: u32, ea: u32, funct3: u8) -> (v: u32)
    ensures
        v == load_value(word, ea, funct3),
{
    let lane = word >> lane_shift_of(ea, funct3);
    let signed = (funct3 / 4) % 2 == 0;
    if funct3 == 0 || funct3 == 4 {
        if signed && lane & 0x80 != 0 {
            (lane & 0xff) | 0xffff_ff00
        } else {
            lane & 0xff
        }
    } else if funct3 == 1 || funct3 == 5 {
        if signed && lane & 0x8000 != 0 {
            (lane & 0xffff) | 0xffff_0000
        } else {
            lane & 0xffff
        }
    } else {
        lane
    }
}

/// The word after storing the low bytes of `v` into the addressed lane.
fn store_lane(word: u32, ea: u32, funct3: u8, v: u32) -> (r: u32)
    ensures
        r == store_word(word, ea, funct3, v),
{
    let sh = lane_shift_of(ea, funct3);
    let mask: u32 = if funct3 == 0 || funct3 == 4 {
        0xffu32 << sh
    } else if funct3 == 1 || funct3 == 5 {
        0xffffu32 << sh
    } else {
        0xffff_ffff
    };
    (word & !mask) | ((v << sh) & mask)
}

impl Rv32iProcessor {
    /// A core that runs `program` on `memory`, with every register zero and
    /// the program counter at 0.
    pub fn new(program: Vec<u32>, memory: Vec<u32>) -> (cpu: Rv32iProcessor)
        ensures
            cpu@ == initial_state(program@, memory@),
            cpu@.wf(),
    {
        Rv32iProcessor { registers: zero_words(32), pc: 0, program, memory }
    }

    /// Executes the instruction at the program counter: fetch, decode,
    /// evaluate, access memory, write the result back and move the program
    /// counter on. A program counter past the program leaves the core as it
    /// is.
    pub fn exec(&mut self)
        requires
            old(self)@.wf(),
        ensures
            final(self)@ == step(old(self)@),
            final(self)@.wf(),
    {
        let index = (self.pc / 4) as usize;
        if index >= self.program.len() {
            return ;
        }
        let mut isa = Rv32iIsa::new(self.program[index]);
        isa.parse_instr();
        proof {
            lemma_field_widths(isa.i_instruction);
        }
        let t = isa.o_instrtype;
        let funct3 = isa.o_funct3;
        let rs1_value = self.registers[isa.o_rs1 as usize];
        let rs2_value = self.registers[isa.o_rs2 as usize];
        let in2 = if t == InstrType::AluRtype || t == InstrType::BranchBtype {
            rs2_value
        } else {
            isa.o_imm
        };
        let mut alu = Rv32iAlu::new();
        alu.exec(rs1_value, in2, funct3, isa.o_funct7, isa.i_instruction);

        let mut load_data: u32 = 0;
        if t == InstrType::LoadItype || t == InstrType::StoreStype {
            let ea = alu.o_alu_add;
            let wi = (ea / 4) as usize;
            if wi < self.memory.len() {
                let word = self.memory[wi];
                if t == InstrType::StoreStype {
                    self.memory[wi] = store_lane(word, ea, funct3, rs2_value);
                } else {
                    load_data = load_lane(word, ea, funct3);
                }
            }
        }
        let result = match t {
            InstrType::JalJtype | InstrType::JalrItype => self.pc.wrapping_add(4),
            InstrType::LuiUtype => isa.o_imm,
            InstrType::AuipcUtype => self.pc.wrapping_add(isa.o_imm),
            InstrType::LoadItype => load_data,
            InstrType::Illegal => 0,
            _ => alu.o_out,
        };
        if isa.o_rd != 0 && t != InstrType::StoreStype && t != InstrType::BranchBtype {
            self.registers[isa.o_rd as usize] = result;
        }
        let taken = match funct3 {
            0 => alu.o_eq,
            1 => !alu.o_eq,
            4 => alu.o_lt,
            5 => !alu.o_lt,
            6 => alu.o_ltu,
            7 => !alu.o_ltu,
            _ => false,
        };
        self.pc = if t == InstrType::JalJtype || (t == InstrType::BranchBtype && taken) {
            self.pc.wrapping_add(isa.o_imm)
        } else if t == InstrType::JalrItype {
            alu.o_alu_add & 0xffff_fffe
        } else {
            self.pc.wrapping_add(4)
        };
    }
}

} // verus!
