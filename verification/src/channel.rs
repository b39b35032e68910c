use vstd::prelude::*;

verus! {

/// A pixel channel type: an unsigned, bounded integer. A channel value is
/// characterised by its numeric value, which is zero at least and the
/// type's maximum at most.
pub trait Channel: Copy + Sized {
    /// The numeric value of this channel value.
    spec fn spec_val(self) -> nat;

    /// The zero value of the type.
    spec fn spec_zero() -> Self;

    /// The largest value the type can represent.
    spec fn spec_max() -> Self;

    /// The type is unsigned and bounded: zero has numeric value zero, and
    /// no value exceeds the maximum.
    proof fn lemma_bounds(self)
        ensures
            Self::spec_zero().spec_val() == 0,
            self.spec_val() <= Self::spec_max().spec_val(),
    ;

    /// The zero value.
    fn zero() -> (r: Self)
        ensures
            r == Self::spec_zero(),
    ;

    /// The largest representable value.
    fn max_value() -> (r: Self)
        ensures
            r == Self::spec_max(),
    ;

    /// The numeric value, widened to a machine integer.
    fn to_u64(self) -> (r: u64)
        ensures
            r == self.spec_val(),
    ;
}

impl Channel for u8 {
    open spec fn spec_val(self) -> nat {
        self as nat
    }

    open spec fn spec_zero() -> u8 {
        0u8
    }

    open spec fn spec_max() -> u8 {
        u8::MAX
    }

    proof fn lemma_bounds(self) {
    }

    fn zero() -> u8 {
        0u8
    }

    fn max_value() -> u8 {
        u8::MAX
    }

    fn to_u64(self) -> u64 {
        self as u64
    }
}

impl Channel for u16 {
    open spec fn spec_val(self) -> nat {
        self as nat
    }

    open spec fn spec_zero() -> u16 {
        0u16
    }

    open spec fn spec_max() -> u16 {
        u16::MAX
    }

    proof fn lemma_bounds(self) {
    }

    fn zero() -> u16 {
        0u16
    }

    fn max_value() -> u16 {
        u16::MAX
    }

    fn to_u64(self) -> u64 {
        self as u64
    }
}

impl Channel for u32 {
    open spec fn spec_val(self) -> nat {
        self as nat
    }

    open spec fn spec_zero() -> u32 {
        0u32
    }

    open spec fn spec_max() -> u32 {
        u32::MAX
    }

    proof fn lemma_bounds(self) {
    }

    fn zero() -> u32 {
        0u32
    }

    fn max_value() -> u32 {
        u32::MAX
    }

    fn to_u64(self) -> u64 {
        self as u64
    }
}

impl Channel for u64 {
    open spec fn spec_val(self) -> nat {
        self as nat
    }

    open spec fn spec_zero() -> u64 {
        0u64
    }

    open spec fn spec_max() -> u64 {
        u64::MAX
    }

    proof fn lemma_bounds(self) {
    }

    fn zero() -> u64 {
        0u64
    }

    fn max_value() -> u64 {
        u64::MAX
    }

    fn to_u64(self) -> u64 {
        self
    }
}

} // verus!
