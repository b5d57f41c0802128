//! The color-depth scale.

use core::cmp::Ordering;
use vstd::prelude::*;
use vstd::std_specs::cmp::PartialOrdSpecImpl;

verus! {

/// How many colors a stream can render, from fewest to most.
///
/// The scale is totally ordered: `NoColor < Ansi16 < Ansi256 < TrueColor`, so a
/// caller may ask whether the support is at least some depth.
#[derive(Clone, Copy, Debug, PartialEq, Eq, Structural, Hash, Ord)]
pub enum ColorSupport {
    /// No color at all.
    NoColor,
    /// The 16-color ANSI palette.
    Ansi16,
    /// The 256-color ANSI palette.
    Ansi256,
    /// 24-bit direct RGB.
    TrueColor,
}

impl ColorSupport {
    /// Position on the scale: 0 for `NoColor` up to 3 for `TrueColor`.
    pub open spec fn rank(self) -> nat {
        match self {
            ColorSupport::NoColor => 0,
            ColorSupport::Ansi16 => 1,
            ColorSupport::Ansi256 => 2,
            ColorSupport::TrueColor => 3,
        }
    }

    /// The support that a numeric level names; levels above 3 name nothing.
    pub open spec fn of_level(level: nat) -> Option<ColorSupport> {
        if level == 0 {
            Some(ColorSupport::NoColor)
        } else if level == 1 {
            Some(ColorSupport::Ansi16)
        } else if level == 2 {
            Some(ColorSupport::Ansi256)
        } else if level == 3 {
            Some(ColorSupport::TrueColor)
        } else {
            None
        }
    }

    /// The numeric level of this support, 0 to 3.
    pub fn level(self) -> (n: u8)
        ensures
            n == self.rank(),
    {
        match self {
            ColorSupport::NoColor => 0,
            ColorSupport::Ansi16 => 1,
            ColorSupport::Ansi256 => 2,
            ColorSupport::TrueColor => 3,
        }
    }

    /// The support named by a numeric level, if the level is one of 0 to 3.
    pub fn from_level(level: u8) -> (r: Option<ColorSupport>)
        ensures
            r == Self::of_level(level as nat),
    {
        match level {
            0 => Some(ColorSupport::NoColor),
            1 => Some(ColorSupport::Ansi16),
            2 => Some(ColorSupport::Ansi256),
            3 => Some(ColorSupport::TrueColor),
            _ => None,
        }
    }

    /// Whether this support is at least as deep as `other`.
    pub fn at_least(self, other: ColorSupport) -> (r: bool)
        ensures
            r == (self.rank() >= other.rank()),
    {
        self >= other
    }

    /// A level and the support it names determine each other.
    pub proof fn level_round_trip(self)
        ensures
            Self::of_level(self.rank()) == Some(self),
            forall|n: nat| Self::of_level(n) == Some(self) ==> n == self.rank(),
    {
    }

    /// Two supports with the same rank are the same support.
    pub proof fn rank_is_injective(self, other: ColorSupport)
        requires
            self.rank() == other.rank(),
        ensures
            self == other,
    {
    }
}

/// Whether `a` is no deeper than `b`: what `a <= b` means.
pub open spec fn no_deeper(a: ColorSupport, b: ColorSupport) -> bool {
    a.rank() <= b.rank()
}

/// The order is total: of two supports, one is no deeper than the other.
pub proof fn order_is_total(a: ColorSupport, b: ColorSupport)
    ensures
        no_deeper(a, b) || no_deeper(b, a),
{
}

/// The order is antisymmetric: two supports that are each no deeper than the
/// other are the same support.
pub proof fn order_is_antisymmetric(a: ColorSupport, b: ColorSupport)
    requires
        no_deeper(a, b),
        no_deeper(b, a),
    ensures
        a == b,
{
}

/// The order is transitive.
pub proof fn order_is_transitive(a: ColorSupport, b: ColorSupport, c: ColorSupport)
    requires
        no_deeper(a, b),
        no_deeper(b, c),
    ensures
        no_deeper(a, c),
{
}

/// `NoColor` is the least support and `TrueColor` the greatest.
pub proof fn order_has_ends(a: ColorSupport)
    ensures
        no_deeper(ColorSupport::NoColor, a),
        no_deeper(a, ColorSupport::TrueColor),
{
}

impl PartialOrd for ColorSupport {
    fn partial_cmp(&self, other: &ColorSupport) -> (r: Option<Ordering>) {
        let a: u8 = self.level();
        let b: u8 = other.level();
        if a < b {
            Some(Ordering::Less)
        } else if a == b {
            Some(Ordering::Equal)
        } else {
            Some(Ordering::Greater)
        }
    }
}

impl PartialOrdSpecImpl for ColorSupport {
    open spec fn obeys_partial_cmp_spec() -> bool {
        true
    }

    open spec fn partial_cmp_spec(&self, other: &ColorSupport) -> Option<Ordering> {
        if self.rank() < other.rank() {
            Some(Ordering::Less)
        } else if self.rank() == other.rank() {
            Some(Ordering::Equal)
        } else {
            Some(Ordering::Greater)
        }
    }
}

} // verus!
