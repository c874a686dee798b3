//! Byte offsets of the GPIO registers inside the mapped peripheral block.
//!
//! Three layouts coexist in the block. The function-select family packs ten
//! pins into each 32-bit register, the pull-up/pull-down control family packs
//! sixteen, and every other family keeps one bit per pin in a pair of
//! registers that cover pins 0..=31 and 32 upwards.

use vstd::prelude::*;

verus! {

/// Width of one register in bytes.
pub const REGISTER_SIZE: u32 = 4;

/// Number of usable pins; valid pin indices are `0..GPIO_PIN_COUNT`.
pub const GPIO_PIN_COUNT: u32 = 58;

/// Pins whose function codes share one function-select register.
pub const GPIO_FUNCS_PER_REGISTER: u32 = 10;

/// Pins whose pull settings share one pull-up/pull-down control register.
pub const GPIO_PUPPUD_PER_REGISTER: u32 = 16;

/// Highest pin served by the first register of a one-bit-per-pin pair.
pub const GPIO_LAST_PIN_OF_FIRST_BANK: u32 = 31;

/// Whether `pin` names a pin of the controller.
pub open spec fn valid_pin(pin: u32) -> bool {
    pin < GPIO_PIN_COUNT
}

/// Decides whether `pin` names a pin of the controller. Every addressing
/// function requires a valid pin, so a caller with an unchecked index asks
/// here first.
pub fn is_valid_pin(pin: u32) -> (ok: bool)
    ensures
        ok == valid_pin(pin),
{
    pin < GPIO_PIN_COUNT
}

/// A family of GPIO registers.
#[derive(Clone, Copy, Debug, PartialEq, Eq, Structural)]
pub enum Register {
    /// Function select, ten pins per register.
    GPFSEL,
    /// Output set.
    GPSET,
    /// Output clear.
    GPCLR,
    /// Pin level.
    GPLEV,
    /// Event detect status.
    GPEDS,
    /// Rising edge detect enable.
    GPREN,
    /// Falling edge detect enable.
    GPFEN,
    /// High level detect enable.
    GPHEN,
    /// Low level detect enable.
    GPLEN,
    /// Asynchronous rising edge detect enable.
    GPAREN,
    /// Asynchronous falling edge detect enable.
    GPAFEN,
    /// Pull-up/pull-down control, sixteen pins per register.
    GPPUPPDNCNTRL,
}

impl Register {
    /// Byte offset of the family's first register within the block.
    pub open spec fn base(self) -> nat {
        match self {
            Register::GPFSEL => 0x00,
            Register::GPSET => 0x1c,
            Register::GPCLR => 0x28,
            Register::GPLEV => 0x34,
            Register::GPEDS => 0x40,
            Register::GPREN => 0x4c,
            Register::GPFEN => 0x58,
            Register::GPHEN => 0x64,
            Register::GPLEN => 0x70,
            Register::GPAREN => 0x7c,
            Register::GPAFEN => 0x88,
            Register::GPPUPPDNCNTRL => 0xe4,
        }
    }

    /// Number of pins that one register of the family serves.
    pub open spec fn pins_per_register(self) -> nat {
        match self {
            Register::GPFSEL => 10,
            Register::GPPUPPDNCNTRL => 16,
            _ => 32,
        }
    }

    /// Byte offset of the register of this family that serves `pin`.
    ///
    /// Function select packs ten pins into a register and pull control
    /// sixteen; every other family has one register for pins up to 31 and a
    /// second one for the pins above.
    pub open spec fn offset_of(self, pin: u32) -> nat {
        match self {
            Register::GPFSEL => (pin as nat / 10) * 4,
            Register::GPPUPPDNCNTRL => 0xe4 + (pin as nat / 16) * 4,
            _ => self.base() + if pin > 31 {
                4nat
            } else {
                0nat
            },
        }
    }

    /// Byte offset of the family's first register within the block.
    pub fn base_offset(self) -> (base: u32)
        ensures
            base == self.base(),
    {
        match self {
            Register::GPFSEL => 0x00,
            Register::GPSET => 0x1c,
            Register::GPCLR => 0x28,
            Register::GPLEV => 0x34,
            Register::GPEDS => 0x40,
            Register::GPREN => 0x4c,
            Register::GPFEN => 0x58,
            Register::GPHEN => 0x64,
            Register::GPLEN => 0x70,
            Register::GPAREN => 0x7c,
            Register::GPAFEN => 0x88,
            Register::GPPUPPDNCNTRL => 0xe4,
        }
    }

    /// Byte offset, within the peripheral block, of the register of this
    /// family that serves `pin`.
    pub fn to_offset(self, pin: u32) -> (offset: usize)
        requires
            valid_pin(pin),
        ensures
            offset == self.offset_of(pin),
            self is GPFSEL ==> offset == (pin / 10) * 4,
            self is GPFSEL && pin < 10 ==> offset == 0x00,
            self is GPFSEL && 10 <= pin < 20 ==> offset == 0x04,
            self is GPPUPPDNCNTRL ==> offset == 0xe4 + (pin / 16) * 4,
            !(self is GPFSEL) && !(self is GPPUPPDNCNTRL) ==> offset == self.base() + (if pin
                <= 31 {
                0int
            } else {
                4int
            }),
    {
        match self {
            Register::GPFSEL => Register::gpfsel_offset_for(pin),
            Register::GPPUPPDNCNTRL => Register::gp_pullup_pulldown(pin),
            _ => Register::gp2reg_offset_for(self.base_offset(), pin),
        }
    }

    fn gpfsel_offset_for(pin: u32) -> (offset: usize)
        requires
            valid_pin(pin),
        ensures
            offset == (pin / 10) * 4,
    {
        ((pin / GPIO_FUNCS_PER_REGISTER) * REGISTER_SIZE) as usize
    }

    fn gp_pullup_pulldown(pin: u32) -> (offset: usize)
        requires
            valid_pin(pin),
        ensures
            offset == 0xe4 + (pin / 16) * 4,
    {
        (Register::GPPUPPDNCNTRL.base_offset() as usize) + ((pin / GPIO_PUPPUD_PER_REGISTER)
            * REGISTER_SIZE) as usize
    }

    fn gp2reg_offset_for(offset: u32, pin: u32) -> (sum: usize)
        requires
            offset + REGISTER_SIZE <= u32::MAX,
        ensures
            sum == offset + (if pin <= 31 {
                0int
            } else {
                4int
            }),
    {
        let bank: u32 = if pin > GPIO_LAST_PIN_OF_FIRST_BANK {
            REGISTER_SIZE
        } else {
            0
        };
        (offset + bank) as usize
    }
}

/// The one-bit-per-pin families, each with its base: the register for pins
/// up to 31 lies at the base, the register for the pins above it one
/// register further.
pub proof fn lemma_bank_offsets(pin: u32)
    requires
        valid_pin(pin),
    ensures
        ({
            let bank: nat = if pin <= 31 {
                0
            } else {
                4
            };
            &&& Register::GPSET.offset_of(pin) == 0x1c + bank
            &&& Register::GPCLR.offset_of(pin) == 0x28 + bank
            &&& Register::GPLEV.offset_of(pin) == 0x34 + bank
            &&& Register::GPEDS.offset_of(pin) == 0x40 + bank
            &&& Register::GPREN.offset_of(pin) == 0x4c + bank
            &&& Register::GPFEN.offset_of(pin) == 0x58 + bank
            &&& Register::GPHEN.offset_of(pin) == 0x64 + bank
            &&& Register::GPLEN.offset_of(pin) == 0x70 + bank
            &&& Register::GPAREN.offset_of(pin) == 0x7c + bank
            &&& Register::GPAFEN.offset_of(pin) == 0x88 + bank
        }),
{
}

/// One rule covers the three layouts: a register lies one register width
/// past its family's base for every full group of pins below the pin, the
/// group being as many pins as one register of the family serves.
pub proof fn lemma_offset_counts_groups(kind: Register, pin: u32)
    requires
        valid_pin(pin),
    ensures
        kind.offset_of(pin) == kind.base() + (pin as nat / kind.pins_per_register()) * 4,
{
}

/// Pins that one register serves together get the same offset, and no
/// others do.
pub proof fn lemma_same_register_same_group(kind: Register, pin: u32, other: u32)
    requires
        valid_pin(pin),
        valid_pin(other),
    ensures
        kind.offset_of(pin) == kind.offset_of(other) <==> pin as nat / kind.pins_per_register()
            == other as nat / kind.pins_per_register(),
{
}

} // verus!
