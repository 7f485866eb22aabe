//! The mathematical model of the processor: six registers and a memory of
//! exactly 65536 bytes, with each operation of the core as a function from
//! state to state. The executable processor is specified against this model.

use crate::status::zero_negative_updated;
use vstd::prelude::*;

verus! {

/// Number of bytes of memory: every 16-bit address names one of them.
pub const MEMORY_SIZE: usize = 65536;

/// First address of the 256-byte page that holds the hardware stack.
pub const STACK_BASE: u16 = 0x0100;

/// Stack pointer after power-up.
pub const POWER_UP_SP: u8 = 0xFD;

/// Program counter after power-up.
pub const POWER_UP_PC: u16 = 0x8000;

/// Status register after power-up: Interrupt-disable and bit 5.
pub const POWER_UP_STATUS: u8 = 0x24;

/// The address after `addr`; the one after `0xFFFF` is `0x0000`.
pub open spec fn next_address(addr: u16) -> u16 {
    if addr == 0xFFFF {
        0u16
    } else {
        (addr + 1) as u16
    }
}

/// The less significant byte of `word`.
pub open spec fn low_byte(word: u16) -> u8 {
    (word % 256) as u8
}

/// The more significant byte of `word`.
pub open spec fn high_byte(word: u16) -> u8 {
    (word / 256) as u8
}

/// The 16-bit value whose bytes are `low` and `high`.
pub open spec fn word_from_bytes(low: u8, high: u8) -> u16 {
    (high * 256 + low) as u16
}

/// The address in the stack page that the stack pointer `sp` names.
pub open spec fn stack_address(sp: u8) -> u16 {
    (STACK_BASE + sp) as u16
}

/// The stack pointer one slot deeper; below `0x00` comes `0xFF`.
pub open spec fn sp_below(sp: u8) -> u8 {
    if sp == 0 {
        0xFFu8
    } else {
        (sp - 1) as u8
    }
}

/// The stack pointer one slot shallower; above `0xFF` comes `0x00`.
pub open spec fn sp_above(sp: u8) -> u8 {
    if sp == 0xFF {
        0u8
    } else {
        (sp + 1) as u8
    }
}

/// State of the processor as a mathematical value.
pub struct Machine {
    /// Accumulator.
    pub a: u8,
    /// X index register.
    pub x: u8,
    /// Y index register.
    pub y: u8,
    /// Stack pointer, an offset into the stack page.
    pub sp: u8,
    /// Program counter.
    pub pc: u16,
    /// Status register.
    pub status: u8,
    /// Memory, indexed by address.
    pub memory: Seq<u8>,
}

impl Machine {
    /// A state is well formed when its memory has one byte per address.
    pub open spec fn wf(self) -> bool {
        self.memory.len() == MEMORY_SIZE
    }

    /// The state in which every session starts.
    pub open spec fn power_up() -> Machine {
        Machine {
            a: 0,
            x: 0,
            y: 0,
            sp: POWER_UP_SP,
            pc: POWER_UP_PC,
            status: POWER_UP_STATUS,
            memory: Seq::new(MEMORY_SIZE as nat, |i: int| 0u8),
        }
    }

    /// The byte stored at `addr`.
    pub open spec fn read(self, addr: u16) -> u8 {
        self.memory[addr as int]
    }

    /// The state with `value` stored at `addr` and nothing else changed.
    pub open spec fn write(self, addr: u16, value: u8) -> Machine {
        Machine { memory: self.memory.update(addr as int, value), ..self }
    }

    /// The little-endian word whose low byte is at `addr` and whose high byte
    /// is at the next address.
    pub open spec fn read_word(self, addr: u16) -> u16 {
        word_from_bytes(self.read(addr), self.read(next_address(addr)))
    }

    /// The state with the low byte of `value` stored at `addr` and then its
    /// high byte at the next address.
    pub open spec fn write_word(self, addr: u16, value: u16) -> Machine {
        self.write(addr, low_byte(value)).write(next_address(addr), high_byte(value))
    }

    /// The state after pushing `value`: stored where the stack pointer names,
    /// and the stack pointer one slot deeper.
    pub open spec fn push(self, value: u8) -> Machine {
        Machine { sp: sp_below(self.sp), ..self.write(stack_address(self.sp), value) }
    }

    /// The state after popping one byte: the stack pointer one slot shallower.
    pub open spec fn pop(self) -> Machine {
        Machine { sp: sp_above(self.sp), ..self }
    }

    /// The byte that popping yields: the one that the raised stack pointer
    /// names.
    pub open spec fn top(self) -> u8 {
        self.read(stack_address(sp_above(self.sp)))
    }

    /// The state after pushing `value`, high byte first.
    pub open spec fn push_word(self, value: u16) -> Machine {
        self.push(high_byte(value)).push(low_byte(value))
    }

    /// The state after popping two bytes.
    pub open spec fn pop_word(self) -> Machine {
        self.pop().pop()
    }

    /// The word that popping two bytes yields: the first is its low byte.
    pub open spec fn top_word(self) -> u16 {
        word_from_bytes(self.top(), self.pop().top())
    }

    /// The state after pulling the status register from the stack.
    pub open spec fn pull_status(self) -> Machine {
        Machine { status: self.top(), ..self.pop() }
    }

    /// The state after loading `value` into the accumulator.
    pub open spec fn load_accumulator(self, value: u8) -> Machine {
        Machine { a: value, status: zero_negative_updated(self.status, value), ..self }
    }

    /// The state with the program counter moved past one byte.
    pub open spec fn advance(self) -> Machine {
        Machine { pc: next_address(self.pc), ..self }
    }
}

} // verus!
