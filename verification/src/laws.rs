//! What holds of the machine whatever state it is in: laws of single
//! instructions, of instructions in sequence, of the timers and of loading.

use vstd::prelude::*;
use crate::error::Error;
use crate::instruction::{decode_spec, Instruction};
use crate::memory::{load_program_spec, GLYPH_TABLE_SIZE, MEMORY_SIZE, PROGRAM_START};
use crate::state::{flag, pc_after, step, State, STACK_DEPTH};

verus! {

/// The word `8xy4`.
pub open spec fn add_word(x: u8, y: u8) -> u16 {
    (0x8004 + 256 * x + 16 * y) as u16
}

/// The word `8xy5`.
pub open spec fn sub_word(x: u8, y: u8) -> u16 {
    (0x8005 + 256 * x + 16 * y) as u16
}

/// The word `2nnn`.
pub open spec fn call_word(addr: u16) -> u16 {
    (0x2000 + addr) as u16
}

/// The word `00EE`.
pub open spec fn return_word() -> u16 {
    0x00EE
}

/// The words `8xy4` and `8xy5` decode to the addition and the subtraction
/// of registers `x` and `y`.
proof fn lemma_decode_add_sub(x: u8, y: u8)
    requires
        x < 16,
        y < 16,
    ensures
        decode_spec(add_word(x, y)) == Some(Instruction::Add { x, y }),
        decode_spec(sub_word(x, y)) == Some(Instruction::Sub { x, y }),
{
    let a = add_word(x, y);
    let b = sub_word(x, y);
    assert(a / 4096 == 8 && (a / 256) % 16 == x && (a / 16) % 16 == y && a % 16 == 4 && b / 4096
        == 8 && (b / 256) % 16 == x && (b / 16) % 16 == y && b % 16 == 5) by (bit_vector)
        requires
            x < 16,
            y < 16,
            a == 0x8004 + 256 * x + 16 * y,
            b == 0x8005 + 256 * x + 16 * y,
    ;
}

/// `8xy4` always succeeds on a running machine. It leaves the carry in
/// `VF`: 1 if the sum of the two registers went beyond 255, else 0. Unless
/// `x` names `VF` itself, `Vx` then holds the sum modulo 256. Both are
/// computed from the registers as they were, also where `x` and `y` are the
/// same register or `y` names `VF`.
pub proof fn lemma_add_wraps_and_carries(s: State, x: u8, y: u8, random_byte: u8)
    requires
        s.well_formed(),
        s.awaiting_key is None,
        x < 16,
        y < 16,
    ensures
        step(s, add_word(x, y), random_byte) matches Ok(t) && {
            &&& t.v[0xF] == flag(s.v[x as int] + s.v[y as int] > 255)
            &&& x != 0xF ==> t.v[x as int] == (s.v[x as int] + s.v[y as int]) % 256
            &&& forall|r: int| 0 <= r < 16 && r != x && r != 0xF ==> t.v[r] == s.v[r]
            &&& t.pc == pc_after(s.pc, 2)
        },
{
    lemma_decode_add_sub(x, y);
}

/// `8xy5` always succeeds on a running machine. It leaves in `VF` 1 if
/// `Vx` was at least `Vy`, that is if nothing was borrowed, else 0. Unless
/// `x` names `VF` itself, `Vx` then holds the difference modulo 256. Both
/// are computed from the registers as they were.
pub proof fn lemma_sub_wraps_and_flags(s: State, x: u8, y: u8, random_byte: u8)
    requires
        s.well_formed(),
        s.awaiting_key is None,
        x < 16,
        y < 16,
    ensures
        step(s, sub_word(x, y), random_byte) matches Ok(t) && {
            &&& t.v[0xF] == flag(s.v[x as int] >= s.v[y as int])
            &&& x != 0xF ==> t.v[x as int] == (s.v[x as int] - s.v[y as int]) % 256
            &&& forall|r: int| 0 <= r < 16 && r != x && r != 0xF ==> t.v[r] == s.v[r]
            &&& t.pc == pc_after(s.pc, 2)
        },
{
    lemma_decode_add_sub(x, y);
}

/// A call succeeds exactly if fewer than sixteen return addresses are
/// stacked; a full stack gives `StackOverflow`. After a call that
/// succeeded, a return succeeds too and leaves the machine as it was before
/// the call, but for the program counter, which stands at the instruction
/// behind the call.
pub proof fn lemma_return_undoes_call(s: State, addr: u16, random_byte: u8)
    requires
        s.well_formed(),
        s.awaiting_key is None,
        addr < 4096,
    ensures
        match step(s, call_word(addr), random_byte) {
            Ok(t) => {
                &&& s.stack.len() < STACK_DEPTH
                &&& t.pc == addr
                &&& t.stack.len() == s.stack.len() + 1
                &&& step(t, return_word(), random_byte) == Ok::<State, Error>(
                    State { pc: pc_after(s.pc, 2), ..s },
                )
            },
            Err(e) => e == Error::StackOverflow && s.stack.len() == STACK_DEPTH,
        },
{
    assert(decode_spec(call_word(addr)) == Some(Instruction::Call { addr }));
    assert(decode_spec(return_word()) == Some(Instruction::Return));
    if s.stack.len() < STACK_DEPTH {
        assert(s.stack.push(pc_after(s.pc, 2)).drop_last() =~= s.stack);
    }
}

/// A return on an empty call stack fails with `StackUnderflow`.
pub proof fn lemma_return_needs_a_call(s: State, random_byte: u8)
    requires
        s.awaiting_key is None,
        s.stack.len() == 0,
    ensures
        step(s, return_word(), random_byte) == Err::<State, Error>(Error::StackUnderflow),
{
    assert(decode_spec(return_word()) == Some(Instruction::Return));
}

/// A word that encodes no instruction is refused with `InvalidOpcode`,
/// whatever state the machine is in.
pub proof fn lemma_unknown_word_is_invalid(s: State, word: u16, random_byte: u8)
    requires
        decode_spec(word) is None,
    ensures
        step(s, word, random_byte) == Err::<State, Error>(Error::InvalidOpcode),
{
}

/// No instruction takes a well-formed machine out of well-formedness: the
/// call stack never grows beyond sixteen, and every size stays.
pub proof fn lemma_step_keeps_well_formed(s: State, word: u16, random_byte: u8)
    requires
        s.well_formed(),
    ensures
        step(s, word, random_byte) matches Ok(t) ==> t.well_formed(),
{
    crate::instruction::lemma_decoded_well_formed(word);
}

/// An even program counter moved on by an even number of bytes is even.
proof fn lemma_pc_after_even(pc: u16, by: int)
    requires
        pc % 2 == 0,
        by == 2 || by == 4,
    ensures
        pc_after(pc, by) % 2 == 0,
{
}

/// The program counter stays even, and so does every stacked return
/// address, as long as no jump or call goes to an odd address.
pub proof fn lemma_step_keeps_alignment(s: State, word: u16, random_byte: u8)
    requires
        s.well_formed(),
        s.aligned(),
        decode_spec(word) matches Some(ins) ==> !s.jumps_to_odd(ins),
    ensures
        step(s, word, random_byte) matches Ok(t) ==> t.aligned(),
{
    lemma_pc_after_even(s.pc, 2);
    lemma_pc_after_even(s.pc, 4);
    if let Ok(t) = step(s, word, random_byte) {
        let ins = decode_spec(word)->Some_0;
        if s.awaiting_key is None {
            match ins {
                Instruction::Return => {
                    assert(s.stack.last() == s.stack[s.stack.len() - 1]);
                    assert(t.stack == s.stack.drop_last());
                },
                Instruction::Call { addr } => {
                    assert(t.stack == s.stack.push(pc_after(s.pc, 2)));
                    assert(t.pc == addr);
                },
                Instruction::Jump { addr } => {
                    assert(t.pc == addr);
                },
                Instruction::JumpOffset { addr } => {
                    assert(t.pc == pc_after(addr, s.v[0] as int));
                    crate::instruction::lemma_decoded_well_formed(word);
                },
                _ => {
                    assert(t.stack == s.stack);
                    assert(t.pc == s.pc || t.pc == pc_after(s.pc, 2) || t.pc == pc_after(s.pc, 4));
                },
            }
        }
    }
}

/// No instruction changes a cell of the glyph table.
pub proof fn lemma_step_keeps_glyphs(s: State, word: u16, random_byte: u8, a: int)
    requires
        s.well_formed(),
        0 <= a < GLYPH_TABLE_SIZE,
    ensures
        step(s, word, random_byte) matches Ok(t) ==> t.memory[a] == s.memory[a],
{
    crate::instruction::lemma_decoded_well_formed(word);
}

/// After `n` ticks each timer is `n` lower, or zero if it started below
/// `n`; nothing else has changed.
pub proof fn lemma_ticks_count_down(s: State, n: nat)
    ensures
        s.ticks(n) == (State {
            delay: if s.delay >= n { (s.delay - n) as u8 } else { 0 },
            sound: if s.sound >= n { (s.sound - n) as u8 } else { 0 },
            ..s
        }),
    decreases n,
{
    if n > 0 {
        lemma_ticks_count_down(s.tick(), (n - 1) as nat);
    }
}

/// A program image is accepted exactly if it ends at or before the last
/// cell of memory. Loading changes no cell before the entry point, so the
/// glyph table stays.
pub proof fn lemma_load_fits_exactly(cells: Seq<u8>, bytes: Seq<u8>)
    requires
        cells.len() == MEMORY_SIZE,
    ensures
        load_program_spec(cells, bytes) is Ok <==> PROGRAM_START + bytes.len() <= MEMORY_SIZE,
        load_program_spec(cells, bytes) is Err ==> load_program_spec(cells, bytes) == Err::<
            Seq<u8>,
            Error,
        >(Error::ProgramTooLarge),
        load_program_spec(cells, bytes) matches Ok(loaded) ==> {
            &&& loaded.len() == MEMORY_SIZE
            &&& forall|a: int| 0 <= a < PROGRAM_START ==> loaded[a] == cells[a]
            &&& forall|k: int| 0 <= k < bytes.len() ==> loaded[PROGRAM_START + k] == bytes[k]
        },
{
}

} // verus!
