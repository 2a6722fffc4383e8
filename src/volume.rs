//! The volume of a zone.

use crate::decimal::{
    capped_digits_value, decimal_digits, digits_value, is_integer, is_integer_text, u8_decimal, unsigned_part,
};
use crate::error::ControllerError;
use vstd::prelude::*;

verus! {

/// A volume level from 0 to 100.
#[derive(Debug, Clone, Copy, PartialEq, Eq, Structural)]
pub struct Volume(u8);

/// The level that a requested volume is stored as: above the maximum it is
/// the maximum.
pub open spec fn clamped(v: nat) -> nat {
    if v > Volume::MAX_VOLUME as nat {
        Volume::MAX_VOLUME as nat
    } else {
        v
    }
}

/// The level that volume text denotes: an integer of any length, clamped to
/// the range, so that a negative one is 0 and one above the maximum is the
/// maximum. Text that is not an integer denotes none.
pub open spec fn level_of_text(s: Seq<char>) -> Option<nat> {
    if !is_integer_text(s) {
        None
    } else if s[0] == '-' {
        Some(0)
    } else {
        Some(clamped(digits_value(unsigned_part(s))))
    }
}

impl View for Volume {
    type V = nat;

    closed spec fn view(&self) -> nat {
        self.0 as nat
    }
}

impl Volume {
    pub const MAX_VOLUME: u8 = 100;

    #[verifier::type_invariant]
    closed spec fn in_range(&self) -> bool {
        self.0 <= Self::MAX_VOLUME
    }

    /// The volume at `value`, or at the maximum where `value` is above it.
    pub fn new(value: u8) -> (r: Volume)
        ensures
            r@ == clamped(value as nat),
    {
        if value > Self::MAX_VOLUME {
            Volume(Self::MAX_VOLUME)
        } else {
            Volume(value)
        }
    }

    pub fn value(&self) -> (r: u8)
        ensures
            r as nat == self@,
            r <= Self::MAX_VOLUME,
    {
        proof {
            use_type_invariant(self);
        }
        self.0
    }

    /// The volume that a response field holds: an integer, clamped to the
    /// range. An absent field, or text that is not an integer, is an error.
    pub fn try_from(value: Option<&String>) -> (r: Result<Volume, ControllerError>)
        ensures
            value is None ==> r matches Err(ControllerError::VolumeError),
            value matches Some(s) ==> match level_of_text(s@) {
                Some(n) => r matches Ok(v) && v@ == n,
                None => r matches Err(ControllerError::VolumeError),
            },
    {
        match value {
            None => Err(ControllerError::VolumeError),
            Some(s) => {
                let s = s.as_str();
                if !is_integer(s) {
                    return Err(ControllerError::VolumeError);
                }
                if s.get_char(0) == '-' {
                    return Ok(Volume::new(0));
                }
                let start: usize = if s.get_char(0) == '+' { 1 } else { 0 };
                proof {
                    assert(unsigned_part(s@) =~= s@.subrange(start as int, s@.len() as int));
                }
                let level = capped_digits_value(s, start, Self::MAX_VOLUME as u64);
                Ok(Volume::new(level as u8))
            },
        }
    }

    /// The level in decimal digits.
    pub fn to_decimal(&self) -> (r: String)
        ensures
            r@ == decimal_digits(self@),
    {
        u8_decimal(self.value())
    }
}

} // verus!
