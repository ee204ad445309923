//! Water state of a cell and the identity of the source that feeds it.

use core::cmp::Ordering;
use vstd::prelude::*;
use vstd::std_specs::cmp::PartialOrdSpecImpl;

verus! {

/// How far water has reached a cell.
///
/// `Wet(n)` means that the cell lies `n` propagation steps from a source.
#[derive(Debug, Clone, Copy, PartialEq, Eq, Structural)]
pub enum Wetness {
    Dry,
    WaterSource,
    Wet(usize),
}

impl Default for Wetness {
    fn default() -> (r: Self)
        ensures
            r == Wetness::Dry,
    {
        Wetness::Dry
    }
}

impl Wetness {
    /// The closer of two readings: a source beats every distance, a shorter
    /// distance beats a longer one, and `Dry` loses to everything.
    pub open spec fn nearer(self, other: Wetness) -> Wetness {
        match other {
            Wetness::Dry => self,
            Wetness::WaterSource => Wetness::WaterSource,
            Wetness::Wet(a) => match self {
                Wetness::Dry => other,
                Wetness::WaterSource => Wetness::WaterSource,
                Wetness::Wet(b) => if a <= b {
                    other
                } else {
                    self
                },
            },
        }
    }
}

/// Which source currently feeds a cell: none, or the source that originates
/// at the given coordinate.
#[derive(Debug, Clone, Copy, PartialEq, Eq, Structural)]
pub enum WetnessSource {
    Unfed,
    Source(usize, usize),
}

/// The number by which two sources are ordered.
pub open spec fn source_rank(x: usize, y: usize) -> int {
    x * 10000 + y
}

fn rank_of(x: usize, y: usize) -> (k: u128)
    ensures
        k == source_rank(x, y),
{
    (x as u128) * 10000 + (y as u128)
}

impl WetnessSource {
    /// Whether `self` comes strictly before `other`: every source comes
    /// before `Unfed`, and sources are ordered by `source_rank`.
    pub open spec fn precedes(self, other: WetnessSource) -> bool {
        match (self, other) {
            (WetnessSource::Source(x1, y1), WetnessSource::Source(x2, y2)) => source_rank(x1, y1)
                < source_rank(x2, y2),
            (WetnessSource::Source(_, _), WetnessSource::Unfed) => true,
            _ => false,
        }
    }

    /// The lesser of the two; `self` where neither precedes the other.
    pub open spec fn least(self, other: WetnessSource) -> WetnessSource {
        if other.precedes(self) {
            other
        } else {
            self
        }
    }

    /// The lesser of the two in the order of `precedes`; `self` on a tie.
    pub fn min(self, other: WetnessSource) -> (r: WetnessSource)
        ensures
            r == self.least(other),
    {
        if other < self {
            other
        } else {
            self
        }
    }
}

impl PartialOrd for WetnessSource {
    fn partial_cmp(&self, other: &Self) -> (r: Option<Ordering>) {
        match (*self, *other) {
            (WetnessSource::Unfed, WetnessSource::Unfed) => Some(Ordering::Equal),
            (WetnessSource::Unfed, WetnessSource::Source(_, _)) => Some(Ordering::Greater),
            (WetnessSource::Source(_, _), WetnessSource::Unfed) => Some(Ordering::Less),
            (WetnessSource::Source(x1, y1), WetnessSource::Source(x2, y2)) => {
                let a: u128 = rank_of(x1, y1);
                let b: u128 = rank_of(x2, y2);
                if a < b {
                    Some(Ordering::Less)
                } else if a == b {
                    Some(Ordering::Equal)
                } else {
                    Some(Ordering::Greater)
                }
            },
        }
    }
}

impl PartialOrdSpecImpl for WetnessSource {
    open spec fn obeys_partial_cmp_spec() -> bool {
        true
    }

    open spec fn partial_cmp_spec(&self, other: &Self) -> Option<Ordering> {
        if self.precedes(*other) {
            Some(Ordering::Less)
        } else if other.precedes(*self) {
            Some(Ordering::Greater)
        } else {
            Some(Ordering::Equal)
        }
    }
}

} // verus!
