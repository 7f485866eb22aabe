//! The status register: one named condition per bit, and the shared rule by
//! which a result byte sets the Zero and Negative conditions.

use vstd::prelude::*;

verus! {

/// Mask of the Carry bit (bit 0).
pub const CARRY: u8 = 0x01;

/// Mask of the Zero bit (bit 1).
pub const ZERO: u8 = 0x02;

/// Mask of the Interrupt-disable bit (bit 2).
pub const INTERRUPT_DISABLE: u8 = 0x04;

/// Mask of the Decimal bit (bit 3).
pub const DECIMAL: u8 = 0x08;

/// Mask of the Break bit (bit 4).
pub const BREAK: u8 = 0x10;

/// Mask of bit 5, which names no condition and reads as 1 after power-up.
pub const UNUSED: u8 = 0x20;

/// Mask of the Overflow bit (bit 6).
pub const OVERFLOW: u8 = 0x40;

/// Mask of the Negative bit (bit 7).
pub const NEGATIVE: u8 = 0x80;

/// The seven conditions that the status register records. Bit 5 names none
/// of them, so no operation that goes through a `Flag` can touch it.
#[derive(Clone, Copy, Debug, PartialEq, Eq)]
pub enum Flag {
    Carry,
    Zero,
    InterruptDisable,
    Decimal,
    Break,
    Overflow,
    Negative,
}

impl Flag {
    /// The single bit of the status register that holds this condition.
    pub open spec fn mask_spec(self) -> u8 {
        match self {
            Flag::Carry => CARRY,
            Flag::Zero => ZERO,
            Flag::InterruptDisable => INTERRUPT_DISABLE,
            Flag::Decimal => DECIMAL,
            Flag::Break => BREAK,
            Flag::Overflow => OVERFLOW,
            Flag::Negative => NEGATIVE,
        }
    }

    /// The single bit of the status register that holds this condition.
    #[verifier::when_used_as_spec(mask_spec)]
    pub fn mask(self) -> (m: u8)
        ensures
            m == self.mask_spec(),
    {
        match self {
            Flag::Carry => CARRY,
            Flag::Zero => ZERO,
            Flag::InterruptDisable => INTERRUPT_DISABLE,
            Flag::Decimal => DECIMAL,
            Flag::Break => BREAK,
            Flag::Overflow => OVERFLOW,
            Flag::Negative => NEGATIVE,
        }
    }
}

/// Whether the condition `flag` is set in the status byte `status`.
pub open spec fn is_set(status: u8, flag: Flag) -> bool {
    status & flag.mask_spec() != 0
}

/// The status byte `status` with the condition `flag` set or cleared, and
/// every other bit as it was.
pub open spec fn with_flag(status: u8, flag: Flag, on: bool) -> u8 {
    if on {
        status | flag.mask_spec()
    } else {
        status & !flag.mask_spec()
    }
}

/// Whether bit 7 of `value` is 1, which is to say that `value` is at least
/// `0x80`.
pub open spec fn sign_bit(value: u8) -> bool {
    value >= 0x80
}

/// The status byte after an operation that produced `result`: Zero is set
/// exactly when `result` is 0, Negative is a copy of bit 7 of `result`, and
/// the other six bits are those of `status`.
pub open spec fn zero_negative_updated(status: u8, result: u8) -> u8 {
    (status & !(ZERO | NEGATIVE)) | (if result == 0 { ZERO } else { 0u8 }) | (result & NEGATIVE)
}

/// Whether `mask` is one of the seven bits that name a condition.
pub open spec fn is_condition_bit(mask: u8) -> bool {
    mask == CARRY || mask == ZERO || mask == INTERRUPT_DISABLE || mask == DECIMAL || mask == BREAK
        || mask == OVERFLOW || mask == NEGATIVE
}

/// Reading a condition back after `with_flag` gives what was written, and no
/// other bit of the status byte has moved.
pub proof fn lemma_with_flag(status: u8, flag: Flag, on: bool)
    ensures
        is_set(with_flag(status, flag, on), flag) == on,
        with_flag(status, flag, on) & !flag.mask_spec() == status & !flag.mask_spec(),
        forall|other: Flag|
            other != flag ==> is_set(with_flag(status, flag, on), other) == is_set(status, other),
        with_flag(status, flag, on) & UNUSED == status & UNUSED,
{
    let m = flag.mask_spec();
    assert(is_condition_bit(m));
    assert({
        &&& (status | m) & m != 0
        &&& (status & !m) & m == 0
        &&& (status | m) & !m == status & !m
        &&& (status & !m) & !m == status & !m
        &&& (status | m) & UNUSED == status & UNUSED
        &&& (status & !m) & UNUSED == status & UNUSED
    }) by (bit_vector)
        requires
            is_condition_bit(m),
    ;
    assert forall|other: Flag| other != flag implies is_set(with_flag(status, flag, on), other)
        == is_set(status, other) by {
        let o = other.mask_spec();
        assert(is_condition_bit(o) && o != m);
        assert({
            &&& ((status | m) & o != 0) == (status & o != 0)
            &&& ((status & !m) & o != 0) == (status & o != 0)
        }) by (bit_vector)
            requires
                is_condition_bit(m),
                is_condition_bit(o),
                o != m,
        ;
    }
}

/// What `zero_negative_updated` does to each bit: Zero and Negative follow the
/// result, and the six other bits are untouched. It is what setting or
/// clearing Zero and then Negative gives.
pub proof fn lemma_zero_negative_updated(status: u8, result: u8)
    ensures
        is_set(zero_negative_updated(status, result), Flag::Zero) <==> result == 0,
        is_set(zero_negative_updated(status, result), Flag::Negative) <==> sign_bit(result),
        sign_bit(result) <==> result & NEGATIVE != 0,
        zero_negative_updated(status, result) & !(ZERO | NEGATIVE) == status & !(ZERO | NEGATIVE),
        zero_negative_updated(status, result) == with_flag(
            with_flag(status, Flag::Zero, result == 0),
            Flag::Negative,
            sign_bit(result),
        ),
{
    let z: u8 = if result == 0 { ZERO } else { 0u8 };
    let kept: u8 = status & !(ZERO | NEGATIVE);
    let sign: u8 = result & NEGATIVE;
    assert({
        &&& ((kept | z | sign) & ZERO != 0) == (z != 0)
        &&& ((kept | z | sign) & NEGATIVE != 0) == (sign != 0)
        &&& (kept | z | sign) & !(ZERO | NEGATIVE) == kept
        &&& (sign != 0) == (result >= 0x80)
        &&& z == ZERO && sign != 0 ==> kept | z | sign == ((status | ZERO) | NEGATIVE)
        &&& z == ZERO && sign == 0 ==> kept | z | sign == ((status | ZERO) & !NEGATIVE)
        &&& z == 0 && sign != 0 ==> kept | z | sign == ((status & !ZERO) | NEGATIVE)
        &&& z == 0 && sign == 0 ==> kept | z | sign == ((status & !ZERO) & !NEGATIVE)
    }) by (bit_vector)
        requires
            z == ZERO || z == 0,
            kept == status & !(ZERO | NEGATIVE),
            sign == result & NEGATIVE,
    ;
}

} // verus!
