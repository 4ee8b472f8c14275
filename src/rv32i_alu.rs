//! The arithmetic/logic/compare unit: a pure function of two operands, the
//! operation fields and the instruction word, with its flags.

use vstd::prelude::*;

verus! {

/// The two's-complement reading of `a`.
pub open spec fn to_signed(a: u32) -> int {
    if a < 0x8000_0000 {
        a as int
    } else {
        a as int - 0x1_0000_0000
    }
}

/// Whether `a` is below `b` when both are read as two's-complement numbers.
pub open spec fn signed_lt(a: u32, b: u32) -> bool {
    to_signed(a) < to_signed(b)
}

/// The shift count: the low five bits of `b` for the register form (bit 5 of
/// the instruction set), else the five bits 24..20 of the instruction.
pub open spec fn shift_amount(b: u32, instr: u32) -> u32 {
    if (instr >> 5u32) & 1u32 == 1 {
        b & 0x1f
    } else {
        (instr >> 20u32) & 0x1f
    }
}

/// `a` shifted right by `sh`, the vacated high bits filled with copies of bit 31.
pub open spec fn shift_right_arith(a: u32, sh: u32) -> u32 {
    if a >> 31u32 == 1 {
        (a >> sh) | !(0xFFFF_FFFFu32 >> sh)
    } else {
        a >> sh
    }
}

/// The primary result for operation `funct3` (and `funct7` where it selects).
pub open spec fn alu_result(a: u32, b: u32, funct3: u8, funct7: u8, instr: u32) -> u32 {
    let sh = shift_amount(b, instr);
    if funct3 == 0 {
        if funct7 == 0x20 {
            a.wrapping_sub(b)
        } else {
            a.wrapping_add(b)
        }
    } else if funct3 == 1 {
        a << sh
    } else if funct3 == 2 {
        if signed_lt(a, b) {
            1
        } else {
            0
        }
    } else if funct3 == 3 {
        if a < b {
            1
        } else {
            0
        }
    } else if funct3 == 4 {
        a ^ b
    } else if funct3 == 5 {
        if funct7 == 0x20 {
            shift_right_arith(a, sh)
        } else {
            a >> sh
        }
    } else if funct3 == 6 {
        a | b
    } else if funct3 == 7 {
        a & b
    } else {
        0
    }
}

/// The ALU's inputs and the outputs of its last evaluation.
pub struct Rv32iAlu {
    pub i_in1: u32,
    pub i_in2: u32,
    pub o_out: u32,
    pub o_eq: bool,
    pub o_lt: bool,
    pub o_ltu: bool,
    pub o_alu_add: u32,
}

impl Rv32iAlu {
    /// The outputs of an evaluation on `in1`, `in2`, `funct3`, `funct7` and `instr`.
    pub open spec fn evaluated(&self, in1: u32, in2: u32, funct3: u8, funct7: u8, instr: u32) -> bool {
        &&& self.i_in1 == in1
        &&& self.i_in2 == in2
        &&& self.o_out == alu_result(in1, in2, funct3, funct7, instr)
        &&& self.o_eq == (in1 == in2)
        &&& self.o_lt == signed_lt(in1, in2)
        &&& self.o_ltu == (in1 < in2)
        &&& self.o_alu_add == in1.wrapping_add(in2)
    }

    /// An ALU with all inputs and outputs cleared.
    pub fn new() -> (alu: Rv32iAlu)
        ensures
            alu.i_in1 == 0,
            alu.i_in2 == 0,
            alu.o_out == 0,
            !alu.o_eq,
            !alu.o_lt,
            !alu.o_ltu,
            alu.o_alu_add == 0,
    {
        Rv32iAlu {
            i_in1: 0,
            i_in2: 0,
            o_out: 0,
            o_eq: false,
            o_lt: false,
            o_ltu: false,
            o_alu_add: 0,
        }
    }

    /// Evaluates the ALU: every output, the three flags included, is
    /// recomputed from the inputs, for every input.
    pub fn exec(&mut self, in1: u32, in2: u32, funct3: u8, funct7: u8, instr: u32)
        ensures
            final(self).evaluated(in1, in2, funct3, funct7, instr),
    {
        self.i_in1 = in1;
        self.i_in2 = in2;
        let shamt = if (instr >> 5) & 1 == 1 {
            in2 & 0x1f
        } else {
            (instr >> 20) & 0x1f
        };
        proof {
            lemma_low_five_bits(in2);
            lemma_low_five_bits(instr >> 20);
        }
        let alu_add = in1.wrapping_add(in2);
        let alu_sub = in1.wrapping_sub(in2);
        let in1_negative = in1 >= 0x8000_0000;
        let in2_negative = in2 >= 0x8000_0000;
        let lt = if in1_negative != in2_negative {
            in1_negative
        } else {
            in1 < in2
        };
        let ltu = in1 < in2;
        self.o_out = match funct3 {
            0 => if funct7 == 0x20 {
                alu_sub
            } else {
                alu_add
            },
            1 => in1 << shamt,
            2 => if lt {
                1
            } else {
                0
            },
            3 => if ltu {
                1
            } else {
                0
            },
            4 => in1 ^ in2,
            5 => if funct7 == 0x20 {
                proof {
                    lemma_shift_right_arith(in1, shamt);
                }
                if in1_negative {
                    !((!in1) >> shamt)
                } else {
                    in1 >> shamt
                }
            } else {
                in1 >> shamt
            },
            6 => in1 | in2,
            7 => in1 & in2,
            _ => 0,
        };
        self.o_eq = in1 == in2;
        self.o_lt = lt;
        self.o_ltu = ltu;
        self.o_alu_add = alu_add;
    }
}

impl Default for Rv32iAlu {
    fn default() -> (alu: Rv32iAlu)
        ensures
            alu.i_in1 == 0,
            alu.i_in2 == 0,
            alu.o_out == 0,
            !alu.o_eq,
            !alu.o_lt,
            !alu.o_ltu,
            alu.o_alu_add == 0,
    {
        Self::new()
    }
}

/// A five-bit field is below 32.
proof fn lemma_low_five_bits(x: u32)
    by (bit_vector)
    ensures
        x & 0x1f < 32,
{
}

/// Complementing, shifting logically and complementing again replicates the
/// sign bit.
proof fn lemma_shift_right_arith(a: u32, sh: u32)
    requires
        sh < 32,
    ensures
        a >= 0x8000_0000 ==> !((!a) >> sh) == shift_right_arith(a, sh),
        a < 0x8000_0000 ==> a >> sh == shift_right_arith(a, sh),
{
    assert(sh < 32 ==> (a >= 0x8000_0000 <==> a >> 31u32 == 1) && (a >= 0x8000_0000 ==> !((!a)
        >> sh) == (a >> sh) | !(0xFFFF_FFFFu32 >> sh))) by (bit_vector);
}

} // verus!
