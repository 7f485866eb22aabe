//! The executable processor: registers, flags, memory and stack.

use crate::machine::{
    high_byte, low_byte, word_from_bytes, Machine, POWER_UP_PC, POWER_UP_SP, POWER_UP_STATUS,
    STACK_BASE,
};
use crate::status::{
    is_set, lemma_with_flag, lemma_zero_negative_updated, sign_bit, with_flag,
    zero_negative_updated, Flag, NEGATIVE, UNUSED, ZERO,
};
use vstd::prelude::*;

verus! {

/// A 6502-compatible processor together with the 64 KiB of memory it owns.
pub struct Cpu6502 {
    /// Accumulator.
    pub a: u8,
    /// X index register.
    pub x: u8,
    /// Y index register.
    pub y: u8,
    /// Stack pointer, an offset into the page at `0x0100`.
    pub sp: u8,
    /// Program counter.
    pub pc: u16,
    /// Status register.
    pub status: u8,
    /// Memory, one byte per 16-bit address.
    pub memory: [u8; 65536],
}

impl View for Cpu6502 {
    type V = Machine;

    open spec fn view(&self) -> Machine {
        Machine {
            a: self.a,
            x: self.x,
            y: self.y,
            sp: self.sp,
            pc: self.pc,
            status: self.status,
            memory: self.memory@,
        }
    }
}

impl Cpu6502 {
    /// A processor in its power-up state, with zero-filled memory.
    pub fn new() -> (cpu: Self)
        ensures
            cpu@ == Machine::power_up(),
    {
        let cpu = Cpu6502 {
            a: 0,
            x: 0,
            y: 0,
            sp: POWER_UP_SP,
            pc: POWER_UP_PC,
            status: POWER_UP_STATUS,
            memory: [0; 65536],
        };
        assert(cpu.memory@ =~= Machine::power_up().memory);
        cpu
    }

    /// Whether the condition `flag` is set.
    pub fn flag(&self, flag: Flag) -> (on: bool)
        ensures
            on == is_set(self.status, flag),
    {
        self.status & flag.mask() != 0
    }

    /// Sets or clears the condition `flag`; every other bit of the status
    /// register keeps its value.
    pub fn set_flag(&mut self, flag: Flag, on: bool)
        ensures
            final(self)@ == (Machine {
                status: with_flag(old(self).status, flag, on),
                ..old(self)@
            }),
            is_set(final(self).status, flag) == on,
            forall|other: Flag|
                other != flag ==> is_set(final(self).status, other) == is_set(
                    old(self).status,
                    other,
                ),
            final(self).status & UNUSED == old(self).status & UNUSED,
    {
        proof {
            lemma_with_flag(self.status, flag, on);
        }
        if on {
            self.status = self.status | flag.mask();
        } else {
            self.status = self.status & !flag.mask();
        }
    }

    /// Recomputes Zero and Negative from `result`: Zero is set exactly when
    /// `result` is 0, Negative exactly when bit 7 of `result` is 1. The six
    /// other bits of the status register, the other registers and memory
    /// keep their values.
    pub fn update_zero_and_negative_flags(&mut self, result: u8)
        ensures
            final(self)@ == (Machine {
                status: zero_negative_updated(old(self).status, result),
                ..old(self)@
            }),
            is_set(final(self).status, Flag::Zero) <==> result == 0,
            is_set(final(self).status, Flag::Negative) <==> sign_bit(result),
            final(self).status & !(ZERO | NEGATIVE) == old(self).status & !(ZERO | NEGATIVE),
    {
        proof {
            lemma_zero_negative_updated(self.status, result);
        }
        self.set_flag(Flag::Zero, result == 0);
        self.set_flag(Flag::Negative, result & NEGATIVE != 0);
    }

    /// The byte stored at `addr`.
    pub fn read(&self, addr: u16) -> (value: u8)
        ensures
            value == self@.read(addr),
    {
        self.memory[addr as usize]
    }

    /// Stores `data` at `addr`, over whatever was there.
    pub fn write(&mut self, addr: u16, data: u8)
        ensures
            final(self)@ == old(self)@.write(addr, data),
    {
        self.memory[addr as usize] = data;
        assert(self@.memory =~= old(self)@.write(addr, data).memory);
    }

    /// Reads the little-endian word at `addr`: low byte at `addr`, high byte
    /// at the address after it, which for `0xFFFF` is `0x0000`.
    pub fn read_word(&self, addr: u16) -> (value: u16)
        ensures
            value == self@.read_word(addr),
    {
        let lo: u8 = self.read(addr);
        let hi: u8 = self.read(addr.wrapping_add(1));
        join_bytes(lo, hi)
    }

    /// Writes `data` little-endian at `addr`: low byte at `addr`, then high
    /// byte at the address after it, which for `0xFFFF` is `0x0000`.
    pub fn write_word(&mut self, addr: u16, data: u16)
        ensures
            final(self)@ == old(self)@.write_word(addr, data),
    {
        let (lo, hi) = split_word(data);
        self.write(addr, lo);
        self.write(addr.wrapping_add(1), hi);
    }

    /// Pushes `data`: stores it at `0x0100 + sp`, then lowers `sp` by one,
    /// from `0x00` to `0xFF`.
    pub fn push(&mut self, data: u8)
        ensures
            final(self)@ == old(self)@.push(data),
    {
        self.write(STACK_BASE + self.sp as u16, data);
        self.sp = self.sp.wrapping_sub(1);
    }

    /// Pops a byte: raises `sp` by one, from `0xFF` to `0x00`, then reads
    /// the byte at `0x0100 + sp`.
    pub fn pop(&mut self) -> (value: u8)
        ensures
            final(self)@ == old(self)@.pop(),
            value == old(self)@.top(),
    {
        self.sp = self.sp.wrapping_add(1);
        self.read(STACK_BASE + self.sp as u16)
    }

    /// Pushes `data`, high byte first, so that the low byte lies on top.
    pub fn push_word(&mut self, data: u16)
        ensures
            final(self)@ == old(self)@.push_word(data),
    {
        let (lo, hi) = split_word(data);
        self.push(hi);
        self.push(lo);
    }

    /// Pops a word: the first byte popped is its low byte, the second its
    /// high byte.
    pub fn pop_word(&mut self) -> (value: u16)
        ensures
            final(self)@ == old(self)@.pop_word(),
            value == old(self)@.top_word(),
    {
        let lo: u8 = self.pop();
        let hi: u8 = self.pop();
        join_bytes(lo, hi)
    }

    /// Pops a byte into the status register, replacing all eight bits.
    pub fn pull_status(&mut self)
        ensures
            final(self)@ == old(self)@.pull_status(),
    {
        self.status = self.pop();
    }

    /// Loads `value` into the accumulator and updates Zero and Negative from
    /// it. The six other status bits, the other registers and memory keep
    /// their values.
    pub fn lda_immediate(&mut self, value: u8)
        ensures
            final(self)@ == old(self)@.load_accumulator(value),
            final(self).a == value,
            is_set(final(self).status, Flag::Zero) <==> value == 0,
            is_set(final(self).status, Flag::Negative) <==> sign_bit(value),
            final(self).status & !(ZERO | NEGATIVE) == old(self).status & !(ZERO | NEGATIVE),
    {
        self.a = value;
        self.update_zero_and_negative_flags(self.a);
    }
}

/// The low and the high byte of `word`, in that order.
pub fn split_word(word: u16) -> (bytes: (u8, u8))
    ensures
        bytes.0 == low_byte(word),
        bytes.1 == high_byte(word),
{
    assert((word & 0xFF) == word % 256 && (word >> 8) == word / 256) by (bit_vector);
    ((word & 0xFF) as u8, (word >> 8) as u8)
}

/// The word whose low byte is `low` and whose high byte is `high`.
pub fn join_bytes(low: u8, high: u8) -> (word: u16)
    ensures
        word == word_from_bytes(low, high),
{
    let lo: u16 = low as u16;
    let hi: u16 = high as u16;
    assert((hi << 8) | lo == hi * 256 + lo) by (bit_vector)
        requires
            lo < 256,
            hi < 256,
    ;
    (hi << 8) | lo
}

} // verus!
