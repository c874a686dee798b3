//! Function codes of a pin and their place in a function-select register.
//!
//! A function-select register holds the three-bit codes of ten pins side by
//! side: the code of pin `p` occupies bits `3 * (p % 10)` to
//! `3 * (p % 10) + 2` of the register that serves `p`.

use vstd::prelude::*;
use crate::register::valid_pin;

verus! {

/// Width in bits of one pin's function code.
pub const GPIO_FUNC_BITS: u32 = 3;

/// All ones over the width of one function code.
pub const GPIO_FUNC_MASK: u32 = 0b111;

/// Operating mode of a pin.
///
/// The variants stand in ascending order of their hardware code, so the
/// derived ordering compares codes.
#[derive(Copy, Clone, Debug, Eq, PartialEq, Ord, PartialOrd, Structural)]
pub enum PinFunction {
    /// Code `0b000`.
    Input,
    /// Code `0b001`.
    Output,
    /// Alternate function 5, code `0b010`.
    Alt5,
    /// Alternate function 4, code `0b011`.
    Alt4,
    /// Alternate function 0, code `0b100`.
    Alt0,
    /// Alternate function 1, code `0b101`.
    Alt1,
    /// Alternate function 2, code `0b110`.
    Alt2,
    /// Alternate function 3, code `0b111`.
    Alt3,
}

/// Position of the lowest bit of `pin`'s field within its function-select
/// register.
pub open spec fn field_shift(pin: u32) -> u32 {
    ((pin % 10) * 3) as u32
}

impl PinFunction {
    /// The three-bit code that the hardware assigns to the function.
    pub open spec fn code(self) -> u32 {
        match self {
            PinFunction::Input => 0b000,
            PinFunction::Output => 0b001,
            PinFunction::Alt0 => 0b100,
            PinFunction::Alt1 => 0b101,
            PinFunction::Alt2 => 0b110,
            PinFunction::Alt3 => 0b111,
            PinFunction::Alt4 => 0b011,
            PinFunction::Alt5 => 0b010,
        }
    }

    /// The function's code, moved to `pin`'s field.
    pub open spec fn field_bits(self, pin: u32) -> u32 {
        self.code() << field_shift(pin)
    }

    /// Ones everywhere but in `pin`'s field.
    pub open spec fn field_clear_mask(pin: u32) -> u32 {
        !(0b111u32 << field_shift(pin))
    }

    /// The three-bit code that the hardware assigns to the function.
    pub fn to_code(&self) -> (code: u32)
        ensures
            code == self.code(),
            code <= 0b111,
    {
        match self {
            PinFunction::Input => 0b000,
            PinFunction::Output => 0b001,
            PinFunction::Alt0 => 0b100,
            PinFunction::Alt1 => 0b101,
            PinFunction::Alt2 => 0b110,
            PinFunction::Alt3 => 0b111,
            PinFunction::Alt4 => 0b011,
            PinFunction::Alt5 => 0b010,
        }
    }

    /// The word that holds this function's code in `pin`'s field and zeros
    /// elsewhere.
    pub fn to_bits(&self, pin: u32) -> (bits: u32)
        requires
            valid_pin(pin),
        ensures
            bits == self.field_bits(pin),
            bits == self.code() << (((pin % 10) * 3) as u32),
    {
        let fval: u32 = self.to_code();
        fval << ((pin % 10) * GPIO_FUNC_BITS)
    }

    /// The word that holds zeros in `pin`'s field and ones elsewhere.
    pub fn clear_mask(pin: u32) -> (mask: u32)
        requires
            valid_pin(pin),
        ensures
            mask == Self::field_clear_mask(pin),
            mask == !(0b111u32 << (((pin % 10) * 3) as u32)),
    {
        !(GPIO_FUNC_MASK << ((pin % 10) * GPIO_FUNC_BITS))
    }
}

/// Two functions with the same code are the same function.
pub proof fn lemma_code_determines_function(first: PinFunction, second: PinFunction)
    requires
        first.code() == second.code(),
    ensures
        first == second,
{
}

/// A function's bits lie inside the pin's field: the clear mask wipes them.
pub proof fn lemma_bits_lie_in_field(function: PinFunction, pin: u32)
    requires
        valid_pin(pin),
    ensures
        function.field_bits(pin) & PinFunction::field_clear_mask(pin) == 0,
        (function.field_bits(pin) >> field_shift(pin)) == function.code(),
{
    let code: u32 = function.code();
    let shift: u32 = field_shift(pin);
    assert((code << shift) & !(0b111u32 << shift) == 0 && ((code << shift) >> shift) == code)
        by (bit_vector)
        requires
            code <= 0b111,
            shift <= 27,
    ;
}

/// The read-modify-write that the clear mask exists for: clearing `pin`'s
/// field in `word` and or-ing in a function's bits leaves the function's
/// code in that field and every bit outside the field as it was.
pub proof fn lemma_field_update(function: PinFunction, pin: u32, word: u32)
    requires
        valid_pin(pin),
    ensures
        ({
            let mask = PinFunction::field_clear_mask(pin);
            let updated = (word & mask) | function.field_bits(pin);
            &&& (updated >> field_shift(pin)) & 0b111 == function.code()
            &&& updated & mask == word & mask
        }),
{
    let code: u32 = function.code();
    let shift: u32 = field_shift(pin);
    assert({
        let mask = !(0b111u32 << shift);
        let updated = (word & mask) | (code << shift);
        &&& (updated >> shift) & 0b111 == code
        &&& updated & mask == word & mask
    }) by (bit_vector)
        requires
            code <= 0b111,
            shift <= 27,
    ;
}

/// Pins that share a function-select register have separate fields: writing
/// one pin's function does not reach into the field of another.
pub proof fn lemma_fields_are_disjoint(function: PinFunction, pin: u32, other: u32)
    requires
        valid_pin(pin),
        valid_pin(other),
        pin % 10 != other % 10,
    ensures
        function.field_bits(pin) & !PinFunction::field_clear_mask(other) == 0,
{
    let code: u32 = function.code();
    let shift: u32 = field_shift(pin);
    let other_shift: u32 = field_shift(other);
    assert((code << shift) & !!(0b111u32 << other_shift) == 0) by (bit_vector)
        requires
            code <= 0b111,
            shift <= 27,
            other_shift <= 27,
            shift % 3 == 0,
            other_shift % 3 == 0,
            shift != other_shift,
    ;
}

} // verus!
