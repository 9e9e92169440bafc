//! Feature codes, and the values that can stand for one.

use vstd::prelude::*;

verus! {

/// The code of a feature.
pub type FeatureRaw = u16;

/// A value that names a feature. Which code it stands for is for each type to
/// say.
pub trait Feature: Sized {
    /// Turns the value into its code.
    fn into_feature(self) -> FeatureRaw;
}

impl Feature for u8 {
    fn into_feature(self) -> (raw: FeatureRaw)
        ensures
            raw == self,
    {
        self as FeatureRaw
    }
}

/// A negative value stands for the code 65536 above it.
impl Feature for i8 {
    fn into_feature(self) -> (raw: FeatureRaw)
        ensures
            raw == if self >= 0 {
                self as int
            } else {
                self + 0x1_0000
            },
    {
        let raw = #[verifier::truncate]
        (self as FeatureRaw);
        assert(raw == if self >= 0 {
            self as int
        } else {
            self + 0x1_0000
        }) by (bit_vector)
            requires
                raw == self as u16,
        ;
        raw
    }
}

impl Feature for u16 {
    fn into_feature(self) -> (raw: FeatureRaw)
        ensures
            raw == self,
    {
        self
    }
}

} // verus!
