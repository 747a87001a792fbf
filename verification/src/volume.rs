//! Gains: a single-precision number that is finite and not below zero.

use crate::binary32::{
    abs, finite, is_finite, lemma_ordinal_orders_values, lt, magnitude, ordinal, scaled_value, ONE,
    ZERO,
};
use std::cmp::Ordering;
use vstd::prelude::*;
use vstd::std_specs::cmp::{PartialEqSpecImpl, PartialOrdSpecImpl};
use vstd::std_specs::convert::TryFromSpecImpl;

verus! {

/// Whether an encoding can serve as a gain: the number is finite and at least
/// zero. Negative zero is zero and passes; NaNs, both infinities and every
/// number below zero do not.
pub open spec fn admissible(bits: u32) -> bool {
    is_finite(bits) && ordinal(bits) >= 0
}

/// Why a value was turned down.
#[derive(Clone, Copy, Debug)]
pub enum SynthError {
    /// The encoding offered as a gain was negative, infinite or a NaN.
    NegativeVolume(u32),
}

impl SynthError {
    /// The sentence that describes the error.
    pub fn message(&self) -> (text: &'static str)
        ensures
            text@ == "VolumeControl value was negative, inf, or nan which are invalid states"@,
    {
        "VolumeControl value was negative, inf, or nan which are invalid states"
    }
}

/// A gain that has been checked. It is never changed in place: build a new one
/// and put it where the old one stood.
#[derive(Clone, Copy, Debug)]
pub struct VolumeControl(u32);

impl View for VolumeControl {
    type V = u32;

    /// The encoding of the gain.
    closed spec fn view(&self) -> u32 {
        self.0
    }
}

impl VolumeControl {
    #[verifier::type_invariant]
    spec fn checked(self) -> bool {
        admissible(self.0)
    }

    /// The encoding of the gain.
    pub fn value(&self) -> (bits: u32)
        ensures
            bits == self@,
            admissible(bits),
    {
        proof {
            use_type_invariant(self);
        }
        self.0
    }
}

impl PartialEq for VolumeControl {
    /// Two gains are equal where they denote the same number.
    fn eq(&self, other: &Self) -> (same: bool) {
        abs(self.0) == abs(other.0)
    }
}

impl PartialEqSpecImpl for VolumeControl {
    open spec fn obeys_eq_spec() -> bool {
        true
    }

    open spec fn eq_spec(&self, other: &Self) -> bool {
        magnitude(self@) == magnitude(other@)
    }
}

impl PartialOrd for VolumeControl {
    /// Gains are ordered as the numbers that they denote; any two compare.
    fn partial_cmp(&self, other: &Self) -> (order: Option<Ordering>) {
        let a: u32 = abs(self.0);
        let b: u32 = abs(other.0);
        if a < b {
            Some(Ordering::Less)
        } else if a == b {
            Some(Ordering::Equal)
        } else {
            Some(Ordering::Greater)
        }
    }
}

impl PartialOrdSpecImpl for VolumeControl {
    open spec fn obeys_partial_cmp_spec() -> bool {
        true
    }

    open spec fn partial_cmp_spec(&self, other: &Self) -> Option<Ordering> {
        if magnitude(self@) < magnitude(other@) {
            Some(Ordering::Less)
        } else if magnitude(self@) == magnitude(other@) {
            Some(Ordering::Equal)
        } else {
            Some(Ordering::Greater)
        }
    }
}

impl Default for VolumeControl {
    /// Unity gain.
    fn default() -> (gain: Self)
        ensures
            gain@ == ONE,
    {
        VolumeControl(ONE)
    }
}

impl TryFromSpecImpl<u32> for VolumeControl {
    open spec fn obeys_try_from_spec() -> bool {
        true
    }

    open spec fn try_from_spec(value: u32) -> Result<Self, SynthError> {
        if admissible(value) {
            Ok(gain_of(value))
        } else {
            Err(SynthError::NegativeVolume(value))
        }
    }
}

/// The gain whose encoding is `bits`.
pub closed spec fn gain_of(bits: u32) -> VolumeControl {
    VolumeControl(bits)
}

/// A gain is its encoding and nothing else.
pub broadcast proof fn lemma_gain_of_view(bits: u32)
    ensures
        #[trigger] gain_of(bits)@ == bits,
{
}

impl TryFrom<u32> for VolumeControl {
    type Error = SynthError;

    /// Checks an encoding and wraps it. The result is `Ok` exactly when the
    /// encoding is [`admissible`], and then holds that very encoding; every
    /// other encoding comes back inside `NegativeVolume`.
    fn try_from(value: u32) -> (checked: Result<Self, SynthError>)
        ensures
            checked is Ok <==> admissible(value),
            checked matches Ok(gain) ==> gain@ == value,
            checked matches Err(e) ==> e == SynthError::NegativeVolume(value),
    {
        if finite(value) && !lt(value, ZERO) {
            Ok(VolumeControl(value))
        } else {
            Err(SynthError::NegativeVolume(value))
        }
    }
}

/// An encoding can serve as a gain exactly when the number that it denotes is
/// finite and at least zero.
pub proof fn lemma_admissible_by_value(bits: u32)
    ensures
        admissible(bits) <==> is_finite(bits) && scaled_value(bits) >= 0,
{
    if is_finite(bits) {
        lemma_ordinal_orders_values(ZERO, bits);
    }
}

/// Gains compare as the numbers that they denote: the order that `<` and
/// `==` go by is the order of the values.
pub proof fn lemma_gains_compare_by_value(a: VolumeControl, b: VolumeControl)
    requires
        admissible(a@),
        admissible(b@),
    ensures
        magnitude(a@) < magnitude(b@) <==> scaled_value(a@) < scaled_value(b@),
        magnitude(a@) == magnitude(b@) <==> scaled_value(a@) == scaled_value(b@),
        scaled_value(a@) >= 0,
{
    lemma_ordinal_orders_values(a@, b@);
    lemma_ordinal_orders_values(ZERO, a@);
}

} // verus!
