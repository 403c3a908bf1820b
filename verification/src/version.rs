//! Version numbers of four parts.

use vstd::prelude::*;

verus! {

/// A version number. The last two parts may be missing.
#[derive(Clone, Copy, Debug, PartialEq, Eq)]
pub struct VersionNumber(pub u32, pub u32, pub Option<u32>, pub Option<u32>);

/// The order of one part: a part that is missing comes before every part that is there.
pub open spec fn part_rank(part: Option<u32>) -> int {
    match part {
        Some(value) => value + 1,
        None => 0,
    }
}

impl VersionNumber {
    /// Whether this version is `other` or comes after it, part by part from the left.
    pub open spec fn at_least(self, other: VersionNumber) -> bool {
        ||| self.0 > other.0
        ||| self.0 == other.0 && self.1 > other.1
        ||| self.0 == other.0 && self.1 == other.1 && part_rank(self.2) > part_rank(other.2)
        ||| self.0 == other.0 && self.1 == other.1 && part_rank(self.2) == part_rank(other.2)
            && part_rank(self.3) >= part_rank(other.3)
    }
}

/// Gives a part as a number that orders it, with nothing for a part that is missing.
fn rank(part: Option<u32>) -> (rank: u64)
    ensures
        rank == part_rank(part),
{
    match part {
        Some(value) => value as u64 + 1,
        None => 0,
    }
}

/// Whether `version` is `other` or comes after it.
pub fn version_newer_or_equal_to(version: &VersionNumber, other: VersionNumber) -> (newer: bool)
    ensures
        newer == version.at_least(other),
{
    if version.0 != other.0 {
        return version.0 > other.0;
    }
    if version.1 != other.1 {
        return version.1 > other.1;
    }
    let third: u64 = rank(version.2);
    let other_third: u64 = rank(other.2);
    if third != other_third {
        return third > other_third;
    }
    rank(version.3) >= rank(other.3)
}

/// Of two versions, one is at least the other.
pub proof fn version_order_total(a: VersionNumber, b: VersionNumber)
    ensures
        a.at_least(b) || b.at_least(a),
{
}

/// Two versions that are each at least the other are the same.
pub proof fn version_order_antisymmetric(a: VersionNumber, b: VersionNumber)
    requires
        a.at_least(b),
        b.at_least(a),
    ensures
        a == b,
{
}

/// A version that is at least a second, which is at least a third, is at least the third.
pub proof fn version_order_transitive(a: VersionNumber, b: VersionNumber, c: VersionNumber)
    requires
        a.at_least(b),
        b.at_least(c),
    ensures
        a.at_least(c),
{
}

} // verus!
