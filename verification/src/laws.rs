//! Laws of the processor model: what a read sees after a write, what a pop
//! sees after a push, and that every operation keeps the state well formed.

use crate::cpu::Cpu6502;
use crate::executor::{StepError, LDA_IMMEDIATE};
use crate::machine::{
    high_byte, low_byte, next_address, sp_above, sp_below, stack_address, word_from_bytes, Machine,
};
use crate::status::{is_set, lemma_zero_negative_updated, sign_bit, Flag, NEGATIVE, ZERO};
use vstd::prelude::*;

verus! {

/// The state of every executable processor is well formed: its memory has
/// one byte per address.
pub proof fn lemma_view_well_formed(cpu: Cpu6502)
    ensures
        cpu@.wf(),
{
}

/// The power-up state is well formed, its registers hold the power-up
/// values, and every byte of its memory is 0.
pub proof fn lemma_power_up()
    ensures
        Machine::power_up().wf(),
        Machine::power_up().a == 0,
        Machine::power_up().x == 0,
        Machine::power_up().y == 0,
        Machine::power_up().sp == 0xFD,
        Machine::power_up().pc == 0x8000,
        Machine::power_up().status == 0x24,
        forall|addr: u16| Machine::power_up().read(addr) == 0,
{
}

/// A word is made of its low and its high byte.
pub proof fn lemma_word_bytes(word: u16)
    ensures
        word_from_bytes(low_byte(word), high_byte(word)) == word,
{
}

/// The bytes of a word made of `low` and `high` are `low` and `high`.
pub proof fn lemma_bytes_of_word(low: u8, high: u8)
    ensures
        low_byte(word_from_bytes(low, high)) == low,
        high_byte(word_from_bytes(low, high)) == high,
{
}

/// Raising the stack pointer undoes lowering it, and the other way round,
/// also across the edge of the stack page.
pub proof fn lemma_stack_pointer_round_trip(sp: u8)
    ensures
        sp_above(sp_below(sp)) == sp,
        sp_below(sp_above(sp)) == sp,
        sp_below(0) == 0xFF,
        sp_above(0xFF) == 0,
        0x0100 <= stack_address(sp) <= 0x01FF,
{
}

/// Every operation of the model keeps a well-formed state well formed.
pub proof fn lemma_operations_preserve_wf(m: Machine, addr: u16, byte: u8, word: u16)
    requires
        m.wf(),
    ensures
        m.write(addr, byte).wf(),
        m.write_word(addr, word).wf(),
        m.push(byte).wf(),
        m.pop().wf(),
        m.push_word(word).wf(),
        m.pop_word().wf(),
        m.pull_status().wf(),
        m.load_accumulator(byte).wf(),
        m.advance().wf(),
        m.step().wf(),
{
}

/// Loading the accumulator makes it the loaded value, sets Zero exactly when
/// the value is 0 and Negative exactly when its bit 7 is 1, and changes
/// nothing else: not the six other status bits, not the other registers, not
/// memory.
pub proof fn lemma_load_accumulator(m: Machine, value: u8)
    ensures
        m.load_accumulator(value).a == value,
        is_set(m.load_accumulator(value).status, Flag::Zero) <==> value == 0,
        is_set(m.load_accumulator(value).status, Flag::Negative) <==> sign_bit(value),
        m.load_accumulator(value).status & !(ZERO | NEGATIVE) == m.status & !(ZERO | NEGATIVE),
        (Machine { a: m.a, status: m.status, ..m.load_accumulator(value) }) == m,
{
    lemma_zero_negative_updated(m.status, value);
}

/// A step on the opcode of load-accumulator-immediate loads the byte after
/// the opcode and leaves the program counter two bytes on; a step on any
/// other opcode reports that opcode and only moves the program counter past
/// it.
pub proof fn lemma_step(m: Machine)
    requires
        m.wf(),
    ensures
        m.byte_at_pc() == LDA_IMMEDIATE ==> {
            &&& m.step_outcome() is Ok
            &&& m.step() == m.advance().advance().load_accumulator(m.read(next_address(m.pc)))
            &&& m.step().a == m.read(next_address(m.pc))
            &&& m.step().pc == next_address(next_address(m.pc))
            &&& is_set(m.step().status, Flag::Zero) <==> m.step().a == 0
            &&& is_set(m.step().status, Flag::Negative) <==> sign_bit(m.step().a)
            &&& m.step().status & !(ZERO | NEGATIVE) == m.status & !(ZERO | NEGATIVE)
        },
        m.byte_at_pc() != LDA_IMMEDIATE ==> {
            &&& m.step_outcome() == Err::<(), StepError>(
                StepError::UnimplementedOpcode(m.byte_at_pc()),
            )
            &&& m.step() == m.advance()
        },
{
    lemma_load_accumulator(m.advance().advance(), m.read(next_address(m.pc)));
}

/// A read sees the byte that was last written to its address.
pub proof fn lemma_write_then_read(m: Machine, addr: u16, byte: u8)
    requires
        m.wf(),
    ensures
        m.write(addr, byte).read(addr) == byte,
{
}

/// A write changes no address but its own, and no register.
pub proof fn lemma_write_leaves_the_rest(m: Machine, addr: u16, byte: u8, other: u16)
    requires
        m.wf(),
        other != addr,
    ensures
        m.write(addr, byte).read(other) == m.read(other),
        (Machine { memory: m.memory, ..m.write(addr, byte) }) == m,
{
}

/// Reading a word sees the word that was last written at its address, also
/// at `0xFFFF`, where the high byte lies at `0x0000`.
pub proof fn lemma_write_word_then_read_word(m: Machine, addr: u16, word: u16)
    requires
        m.wf(),
    ensures
        m.write_word(addr, word).read_word(addr) == word,
        addr == 0xFFFF ==> m.write_word(addr, word).read(0) == high_byte(word),
{
    lemma_word_bytes(word);
}

/// A pop directly after a push yields the pushed byte and leaves the stack
/// pointer where it was before the push.
pub proof fn lemma_push_then_pop(m: Machine, byte: u8)
    requires
        m.wf(),
    ensures
        m.push(byte).top() == byte,
        m.push(byte).pop().sp == m.sp,
        m.push(byte).pop() == m.write(stack_address(m.sp), byte),
{
}

/// At the edges of the stack page the stack pointer wraps: a push at `0x00`
/// stores at `0x0100` and leaves `0xFF`; a pop at `0xFF` leaves `0x00` and
/// yields the byte at `0x0100`.
pub proof fn lemma_stack_pointer_wraps(m: Machine, byte: u8)
    requires
        m.wf(),
    ensures
        m.sp == 0x00 ==> m.push(byte).sp == 0xFF && m.push(byte).read(0x0100) == byte,
        m.sp == 0xFF ==> m.pop().sp == 0x00 && m.top() == m.read(0x0100),
{
}

/// Popping a word directly after pushing one yields the pushed word and
/// leaves the stack pointer where it was before the push.
pub proof fn lemma_push_word_then_pop_word(m: Machine, word: u16)
    requires
        m.wf(),
    ensures
        m.push_word(word).top_word() == word,
        m.push_word(word).pop_word().sp == m.sp,
{
    lemma_word_bytes(word);
    let pushed_high = m.push(high_byte(word));
    let pushed = pushed_high.push(low_byte(word));
    assert(pushed.top() == low_byte(word));
    assert(pushed.pop().top() == high_byte(word));
}

/// Pulling the status register directly after pushing a byte makes that
/// byte the status register, all eight bits of it.
pub proof fn lemma_push_then_pull_status(m: Machine, byte: u8)
    requires
        m.wf(),
    ensures
        m.push(byte).pull_status().status == byte,
        m.push(byte).pull_status().sp == m.sp,
{
}

} // verus!
