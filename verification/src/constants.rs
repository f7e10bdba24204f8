//! Module-level constants and their registration flags.

use vstd::prelude::*;

use crate::values::{Val, ValV};

verus! {

/// Flag bit for a case-sensitive constant (historical; the model keeps it
/// as a zero bit, as current engines do).
pub const CONST_CS: u32 = 0;

/// Flag bit for a constant that survives the request.
pub const CONST_PERSISTENT: u32 = 1;

/// Flag bit for a constant kept out of the file cache.
pub const CONST_NO_FILE_CACHE: u32 = 2;

/// Flag bit for a deprecated constant.
pub const CONST_DEPRECATED: u32 = 4;

/// Flag bit for a constant whose storage the registrant owns.
pub const CONST_OWNED: u32 = 8;

/// A set of constant-registration flag bits.
pub struct Flags {
    bits: u32,
}

impl Flags {
    /// The set holding exactly the given bits.
    pub fn from_bits(bits: u32) -> (r: Flags)
        ensures
            r.spec_bits() == bits,
    {
        Flags { bits }
    }

    /// The bits of the set.
    pub closed spec fn spec_bits(&self) -> u32 {
        self.bits
    }

    /// The bits of the set.
    pub fn bits(&self) -> (r: u32)
        ensures
            r == self.spec_bits(),
    {
        self.bits
    }

    /// The union of two sets.
    pub fn union(&self, other: &Flags) -> (r: Flags)
        ensures
            r.spec_bits() == (self.spec_bits() | other.spec_bits()),
    {
        Flags { bits: self.bits | other.bits }
    }

    /// Whether every bit of `other` is set in `self`.
    pub fn contains(&self, other: &Flags) -> (r: bool)
        ensures
            r == ((self.spec_bits() & other.spec_bits()) == other.spec_bits()),
    {
        (self.bits & other.bits) == other.bits
    }
}

impl Default for Flags {
    /// Case-sensitive and persistent, as constant registration defaults to.
    fn default() -> (r: Flags)
        ensures
            r.spec_bits() == (CONST_CS | CONST_PERSISTENT),
    {
        Flags { bits: CONST_CS | CONST_PERSISTENT }
    }
}

/// A constant to register with the module: a name, a value, and its flags.
pub struct Constant {
    name: String,
    value: Val,
    flags: Flags,
}

impl Constant {
    /// Describes a constant; without explicit flags it is registered
    /// case-sensitive and persistent.
    pub fn new(name: String, value: Val, flags: Option<Flags>) -> (r: Constant)
        ensures
            r.spec_name() == name@,
            r.spec_value() == value@,
            r.spec_flags() == match flags {
                Some(f) => f.spec_bits(),
                None => CONST_CS | CONST_PERSISTENT,
            },
    {
        let flags = match flags {
            Some(f) => f,
            None => Flags::default(),
        };
        Constant { name, value, flags }
    }

    /// The constant's name.
    pub closed spec fn spec_name(&self) -> Seq<char> {
        self.name@
    }

    /// The constant's value.
    pub closed spec fn spec_value(&self) -> ValV {
        self.value@
    }

    /// The constant's flag bits.
    pub closed spec fn spec_flags(&self) -> u32 {
        self.flags.spec_bits()
    }

    /// The constant's name.
    pub fn name(&self) -> (r: &String)
        ensures
            r@ == self.spec_name(),
    {
        &self.name
    }

    /// The constant's value.
    pub fn value(&self) -> (r: &Val)
        ensures
            r@ == self.spec_value(),
    {
        &self.value
    }
}

} // verus!
