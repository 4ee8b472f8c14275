//! What holds of every step of the processor, proved over its model.

use crate::rv32i_isa::{lemma_field_widths, InstrType};
use crate::rv32i_processor::{
    access_width, initial_state, is_byte_access, is_half_access, load_value, narrowed,
    redirects, run, step, store_word, CpuState,
};
use vstd::prelude::*;

verus! {

/// Byte `k` (0 to 3, least significant first) of `x`.
pub open spec fn byte_of(x: u32, k: u32) -> u32 {
    (x >> (k << 3u32)) & 0xff
}

/// Whether byte `k` of the addressed word lies in the lane that an access
/// with `funct3` at byte address `ea` touches.
pub open spec fn in_lane(ea: u32, funct3: u8, k: u32) -> bool {
    if is_byte_access(funct3) {
        k == ea & 3
    } else if is_half_access(funct3) {
        k >> 1u32 == (ea >> 1u32) & 1
    } else {
        true
    }
}

/// A step keeps the register file well formed, register 0 at zero included,
/// and never changes the program or the length of memory.
pub proof fn lemma_step_keeps_zero_register(s: CpuState)
    requires
        s.wf(),
    ensures
        step(s).wf(),
        step(s).registers[0] == 0,
        step(s).program == s.program,
        step(s).memory.len() == s.memory.len(),
{
    if s.can_fetch() {
        lemma_field_widths(s.fetched());
    }
}

/// In every state that a core reaches from its start, register 0 reads zero.
pub proof fn lemma_reachable_zero_register(program: Seq<u32>, memory: Seq<u32>, n: nat)
    ensures
        run(initial_state(program, memory), n).wf(),
        run(initial_state(program, memory), n).registers[0] == 0,
    decreases n,
{
    if n > 0 {
        lemma_reachable_zero_register(program, memory, (n - 1) as nat);
        lemma_step_keeps_zero_register(run(initial_state(program, memory), (n - 1) as nat));
    }
}

/// An instruction that is neither a jump nor a taken branch moves the
/// program counter on by four, modulo 2^32.
pub proof fn lemma_sequential_pc(s: CpuState)
    requires
        s.wf(),
        s.can_fetch(),
        !redirects(s.current(), s.operand1(s.current()), s.operand2(s.current())),
    ensures
        step(s).pc == s.pc.wrapping_add(4),
{
}

/// A store leaves each byte outside its lane as it was.
proof fn lemma_store_outside_lane(word: u32, ea: u32, funct3: u8, v: u32, k: u32)
    by (bit_vector)
    requires
        k < 4,
        !in_lane(ea, funct3, k),
    ensures
        byte_of(store_word(word, ea, funct3, v), k) == byte_of(word, k),
{
}

/// A store changes no memory word but the addressed one, and no byte of that
/// word outside the lane it writes.
pub proof fn lemma_store_keeps_other_bytes(s: CpuState)
    requires
        s.wf(),
        s.can_fetch(),
        s.current().o_instrtype == InstrType::StoreStype,
    ensures
        step(s).memory.len() == s.memory.len(),
        forall|j: int|
            0 <= j < s.memory.len() && j != s.word_index(s.current()) ==> #[trigger] step(
                s,
            ).memory[j] == s.memory[j],
        s.word_index(s.current()) < s.memory.len() ==> forall|k: u32|
            k < 4 && !in_lane(s.effective_address(s.current()), s.current().o_funct3, k)
                ==> #[trigger] byte_of(step(s).memory[s.word_index(s.current())], k)
                == byte_of(s.memory[s.word_index(s.current())], k),
{
    lemma_field_widths(s.fetched());
    let d = s.current();
    let ea = s.effective_address(d);
    let wi = s.word_index(d);
    if wi < s.memory.len() {
        assert forall|k: u32| k < 4 && !in_lane(ea, d.o_funct3, k) implies #[trigger] byte_of(
            step(s).memory[wi],
            k,
        ) == byte_of(s.memory[wi], k) by {
            lemma_store_outside_lane(s.memory[wi], ea, d.o_funct3, s.registers[d.o_rs2 as int], k);
        }
    }
}

/// A load of the width of a store, at its address, reads what was stored.
proof fn lemma_load_after_store(word: u32, ea: u32, store_funct3: u8, load_funct3: u8, v: u32)
    by (bit_vector)
    requires
        is_byte_access(store_funct3) == is_byte_access(load_funct3),
        is_half_access(store_funct3) == is_half_access(load_funct3),
    ensures
        load_value(store_word(word, ea, store_funct3, v), ea, load_funct3) == narrowed(
            v,
            load_funct3,
        ),
{
}

/// A load of the width and address of the store just before it reads the
/// stored register, cut to that width and extended as the load's funct3 says.
pub proof fn lemma_store_then_load(s: CpuState)
    requires
        s.wf(),
        s.can_fetch(),
        s.current().o_instrtype == InstrType::StoreStype,
        s.word_index(s.current()) < s.memory.len(),
        step(s).can_fetch(),
        step(s).current().o_instrtype == InstrType::LoadItype,
        step(s).effective_address(step(s).current()) == s.effective_address(s.current()),
        access_width(step(s).current().o_funct3) == access_width(s.current().o_funct3),
        step(s).current().o_rd != 0,
    ensures
        step(step(s)).registers[step(s).current().o_rd as int] == narrowed(
            s.registers[s.current().o_rs2 as int],
            step(s).current().o_funct3,
        ),
{
    lemma_field_widths(s.fetched());
    lemma_field_widths(step(s).fetched());
    let d = s.current();
    let ea = s.effective_address(d);
    let wi = s.word_index(d);
    lemma_load_after_store(
        s.memory[wi],
        ea,
        d.o_funct3,
        step(s).current().o_funct3,
        s.registers[d.o_rs2 as int],
    );
}

/// An illegal instruction whose rd is register 0 changes no register and no
/// memory, and moves the program counter on by four.
pub proof fn lemma_illegal_with_zero_rd(s: CpuState)
    requires
        s.wf(),
        s.can_fetch(),
        s.current().o_instrtype == InstrType::Illegal,
        s.current().o_rd == 0,
    ensures
        step(s).registers == s.registers,
        step(s).memory == s.memory,
        step(s).pc == s.pc.wrapping_add(4),
{
}

} // verus!
