use vstd::prelude::*;

verus! {

/// The carry flag: set by arithmetic when the unsigned result wrapped.
#[derive(Debug, Clone, Copy, PartialEq, Eq, Structural)]
pub enum CF {
    NoCarry,
    Carry,
}

/// The zero flag: set when the 64-bit result is zero.
#[derive(Debug, Clone, Copy, PartialEq, Eq, Structural)]
pub enum ZF {
    NonZero,
    Zero,
}

/// The sign flag: set when bit 63 of the result is one.
#[derive(Debug, Clone, Copy, PartialEq, Eq, Structural)]
pub enum SF {
    PositiveSign,
    NegativeSign,
}

/// The overflow flag: set by arithmetic when the signed result wrapped.
#[derive(Debug, Clone, Copy, PartialEq, Eq, Structural)]
pub enum OF {
    NoOverflow,
    Overflow,
}

/// The status/flags register.
#[derive(Debug, Clone, Copy, PartialEq, Eq, Structural)]
pub struct Flags {
    pub carry: CF,
    pub zero: ZF,
    pub sign: SF,
    pub overflow: OF,
}

impl Flags {
    /// The flags at machine start: no carry, zero, positive, no overflow.
    pub fn init() -> (r: Flags)
        ensures
            r == (Flags {
                carry: CF::NoCarry,
                zero: ZF::Zero,
                sign: SF::PositiveSign,
                overflow: OF::NoOverflow,
            }),
    {
        Flags { carry: CF::NoCarry, zero: ZF::Zero, sign: SF::PositiveSign, overflow: OF::NoOverflow }
    }
}

impl Default for Flags {
    /// The default flags equal the machine-start flags.
    fn default() -> (r: Flags)
        ensures
            r == (Flags {
                carry: CF::NoCarry,
                zero: ZF::Zero,
                sign: SF::PositiveSign,
                overflow: OF::NoOverflow,
            }),
    {
        Flags::init()
    }
}

} // verus!
