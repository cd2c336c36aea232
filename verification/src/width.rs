//! Canonical x86 operand widths.
use vstd::prelude::*;
use core::cmp::Ordering;

verus! {

/// One of the four operand widths an x86-64 general purpose register has.
#[derive(Debug, Clone, Copy, PartialEq, Eq, Structural)]
pub enum Width {
    _8,
    _16,
    _32,
    _64,
}

/// Width canonicalization error
#[derive(Debug, Clone, Copy, PartialEq, Eq, Structural)]
pub enum WidthError {
    /// Cannot encode 0 sized width
    Zero,
    /// Width too large
    Oversize(u16),
}

impl Width {
    /// The number of bits of the width.
    pub open spec fn bits(self) -> u16 {
        match self {
            Width::_8 => 8,
            Width::_16 => 16,
            Width::_32 => 32,
            Width::_64 => 64,
        }
    }

    /// The smallest width holding `bits` bits; widths beyond 64 bits are
    /// clamped to 64.
    pub open spec fn canonical(bits: u16) -> Width {
        if bits <= 8 {
            Width::_8
        } else if bits <= 16 {
            Width::_16
        } else if bits <= 32 {
            Width::_32
        } else {
            Width::_64
        }
    }

    /// Rounds a bit count up to the width of the smallest register that holds
    /// it. Zero bits is an error; anything above 64 bits is given 64.
    pub fn from_uncanonicalized(bits: u16) -> (r: Result<Width, WidthError>)
        ensures
            bits == 0 ==> r == Err::<Width, WidthError>(WidthError::Zero),
            bits != 0 ==> r == Ok::<Width, WidthError>(Width::canonical(bits)),
    {
        if bits == 0 {
            Err(WidthError::Zero)
        } else if bits <= 8 {
            Ok(Width::_8)
        } else if bits <= 16 {
            Ok(Width::_16)
        } else if bits <= 32 {
            Ok(Width::_32)
        } else {
            Ok(Width::_64)
        }
    }

    /// The number of bits of the width.
    pub fn as_u16(&self) -> (r: u16)
        ensures
            r == self.bits(),
    {
        match self {
            Width::_8 => 8,
            Width::_16 => 16,
            Width::_32 => 32,
            Width::_64 => 64,
        }
    }
}

/// Widths are ordered by their number of bits.
pub open spec fn width_order(a: Width, b: Width) -> Option<Ordering> {
    if a.bits() < b.bits() {
        Some(Ordering::Less)
    } else if a.bits() == b.bits() {
        Some(Ordering::Equal)
    } else {
        Some(Ordering::Greater)
    }
}

impl PartialOrd for Width {
    fn partial_cmp(&self, other: &Width) -> (r: Option<Ordering>) {
        let a = self.as_u16();
        let b = other.as_u16();
        if a < b {
            Some(Ordering::Less)
        } else if a == b {
            Some(Ordering::Equal)
        } else {
            Some(Ordering::Greater)
        }
    }
}

impl vstd::std_specs::cmp::PartialOrdSpecImpl for Width {
    open spec fn obeys_partial_cmp_spec() -> bool {
        true
    }

    open spec fn partial_cmp_spec(&self, other: &Width) -> Option<Ordering> {
        width_order(*self, *other)
    }
}

/// A canonical width holds the bits it was made from: for `1 <= n <= 64`
/// the width is at least `n` bits and is the least of the four that is.
pub proof fn lemma_canonical_width_fits(n: u16)
    requires
        1 <= n <= 64,
    ensures
        n <= Width::canonical(n).bits(),
        Width::canonical(n) != Width::_8 ==> n > 8,
        Width::canonical(n) != Width::_8 && Width::canonical(n) != Width::_16 ==> n > 16,
        Width::canonical(n) == Width::_64 ==> n > 32,
{
}

/// Canonicalisation is monotone and leaves the four register widths fixed.
pub proof fn lemma_canonical_monotone(a: u16, b: u16, w: Width)
    requires
        a <= b,
    ensures
        Width::canonical(a).bits() <= Width::canonical(b).bits(),
        Width::canonical(w.bits()) == w,
{
}

} // verus!
