//! Properties of the instruction semantics that relate several operations or
//! hold for every state.

use vstd::prelude::*;
use crate::instruction::{decode_spec, Instruction};
use crate::model::{blank_display, Chip8Error, Machine, FLAG, NUM_REGS, PIXELS, STACK_LIMIT};

verus! {

/// `6xnn` sets register `x` to exactly `nn` and changes no other register and
/// not the program counter.
pub proof fn lemma_load_immediate(m: Machine, x: u16, nn: u16, rnd: u8)
    requires
        m.wf(),
        x < 16,
        nn < 256,
    ensures
        m.exec(decode_spec((0x6000u16 | (x << 8u16) | nn) as u16), rnd) matches Ok(m2) && {
            &&& m2.v[x as int] == nn as u8
            &&& forall |r: int| 0 <= r < NUM_REGS && r != x ==> m2.v[r] == m.v[r]
            &&& m2.pc == m.pc
            &&& m2 == m.set_v(x as int, nn as u8)
        },
{
    let op = (0x6000u16 | (x << 8u16) | nn) as u16;
    assert(op >> 12u16 == 6u16) by (bit_vector)
        requires op == (0x6000u16 | (x << 8u16) | nn), x < 16, nn < 256;
    assert((op & 0x0F00u16) >> 8u16 == x) by (bit_vector)
        requires op == (0x6000u16 | (x << 8u16) | nn), x < 16, nn < 256;
    assert(op & 0x00FFu16 == nn) by (bit_vector)
        requires op == (0x6000u16 | (x << 8u16) | nn), x < 16, nn < 256;
}

/// `Annn` sets the index register to exactly `nnn`; for `A123` that is `0x123`.
pub proof fn lemma_set_index(m: Machine, rnd: u8)
    ensures
        m.exec(decode_spec(0xA123), rnd) == Ok::<Machine, Chip8Error>(Machine { i: 0x123, ..m }),
{
    assert(0xA123u16 >> 12u16 == 0xAu16) by (bit_vector);
    assert(0xA123u16 & 0x0FFFu16 == 0x123u16) by (bit_vector);
}

/// `00E0` leaves every pixel off, whatever the display held before.
pub proof fn lemma_clear_blanks(m: Machine, rnd: u8)
    ensures
        m.exec(decode_spec(0x00E0), rnd) matches Ok(m2) && {
            &&& m2.display.len() == PIXELS
            &&& forall |p: int| 0 <= p < PIXELS ==> !m2.display[p]
            &&& m2 == (Machine { display: blank_display(), ..m })
        },
{
    assert(0x00E0u16 >> 12u16 == 0u16) by (bit_vector);
}

/// Storing `V0..=Vx` with `Fx55` and loading them back with `Fx65` at the same
/// `I` gives back the state as it was after the store: every register, and
/// in particular `V0..=Vx`, holds its value from before the store.
pub proof fn lemma_store_load_round_trip(m: Machine, x: usize, rnd: u8)
    requires
        m.wf(),
        x < NUM_REGS,
        !m.block_out_of_range(x + 1),
    ensures
        m.exec(Instruction::StoreRegs { x }, rnd) matches Ok(m1) && {
            &&& m1.exec(Instruction::LoadRegs { x }, rnd) matches Ok(m2) && {
                &&& m2.v == m.v
                &&& m2 == m1
            }
        },
{
    let m1 = m.store_regs(x as int);
    let m2 = m1.load_regs(x as int);
    assert(m2.v =~= m.v);
    assert(m1.v =~= m.v);
}

/// A `2nnn` call followed by `00EE`, each fetched first, returns to the address
/// right after the call instruction and leaves the stack as it was.
pub proof fn lemma_call_return(m: Machine, nnn: u16, rnd: u8)
    requires
        m.wf(),
        m.stack.len() < STACK_LIMIT,
        !m.fetch_out_of_range(),
    ensures
        m.fetched().exec(Instruction::Call { nnn }, rnd) matches Ok(m1) && {
            &&& m1.fetched().exec(Instruction::Return, rnd) matches Ok(m2) && {
                &&& m2.pc == m.pc + 2
                &&& m2.stack == m.stack
            }
        },
{
    let m1 = m.fetched().call(nnn);
    assert(m.fetched().stack.push(m.fetched().pc).drop_last() =~= m.stack);
}

/// `8xy4` puts in `VF` whether `Vx + Vy` exceeds 255 and in `Vx` the sum modulo
/// 256, for every pair of operands, where `x` is not the flag register itself.
pub proof fn lemma_add_carry(m: Machine, x: usize, y: usize, rnd: u8)
    requires
        m.wf(),
        x < NUM_REGS,
        y < NUM_REGS,
        x != FLAG,
    ensures
        m.exec(Instruction::AddReg { x, y }, rnd) matches Ok(m2) && {
            &&& (m2.v[FLAG as int] == 1) == (m.v[x as int] + m.v[y as int] > 255)
            &&& m2.v[FLAG as int] <= 1
            &&& m2.v[x as int] == (m.v[x as int] + m.v[y as int]) % 256
        },
{
}

/// `Cxnn` with `nn = 0` stores 0 in `Vx`, whatever byte is drawn.
pub proof fn lemma_random_zero_mask(m: Machine, x: usize, rnd: u8)
    requires
        m.wf(),
        x < NUM_REGS,
    ensures
        m.exec(Instruction::Random { x, nn: 0 }, rnd) matches Ok(m2) && m2.v[x as int] == 0
            && m2 == m.set_v(x as int, 0),
{
    assert(rnd & 0u8 == 0u8) by (bit_vector);
}

/// `00EE` on an empty stack fails with a stack underflow.
pub proof fn lemma_return_underflow(m: Machine, rnd: u8)
    requires
        m.stack.len() == 0,
    ensures
        m.exec(decode_spec(0x00EE), rnd) == Err::<Machine, Chip8Error>(Chip8Error::StackUnderflow),
{
    assert(0x00EEu16 >> 12u16 == 0u16) by (bit_vector);
}

} // verus!
