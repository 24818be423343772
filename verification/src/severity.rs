//! The three levels by which a finding is ranked, and the colour of each.

use std::cmp::Ordering;
use vstd::prelude::*;
use vstd::std_specs::cmp::PartialOrdSpec;

verus! {

/// How serious a finding is: `Info` for a finding that asks for no action,
/// `Medium` and `High` for those that do. The levels are ordered as they are declared:
/// `Info < Medium < High`.
#[derive(Clone, Copy, Debug, PartialEq, Eq, Structural, Ord, Hash)]
pub enum Severity {
    Info,
    Medium,
    High,
}

impl Severity {
    /// The place of a level in the order, counted from the least serious.
    pub open spec fn rank(self) -> nat {
        match self {
            Severity::Info => 0,
            Severity::Medium => 1,
            Severity::High => 2,
        }
    }

    /// The 24-bit colour in which a level is shown.
    pub open spec fn color(self) -> u32 {
        match self {
            Severity::Info => 0x0021_9ebc,
            Severity::Medium => 0x00f7_7f00,
            Severity::High => 0x00d6_2828,
        }
    }

    /// How two levels compare: by their ranks.
    pub open spec fn compare(self, other: Severity) -> Ordering {
        if self.rank() < other.rank() {
            Ordering::Less
        } else if self.rank() == other.rank() {
            Ordering::Equal
        } else {
            Ordering::Greater
        }
    }

    /// The colour of this level.
    pub fn get_color(&self) -> (c: u32)
        ensures
            c == self.color(),
            c <= 0x00ff_ffff,
    {
        match self {
            Severity::Info => 0x0021_9ebc,
            Severity::Medium => 0x00f7_7f00,
            Severity::High => 0x00d6_2828,
        }
    }

    /// The more serious of two levels.
    pub fn max_with(self, other: Severity) -> (m: Severity)
        ensures
            m == if self.rank() >= other.rank() { self } else { other },
    {
        match (self, other) {
            (Severity::High, _) => Severity::High,
            (_, Severity::High) => Severity::High,
            (Severity::Medium, _) => Severity::Medium,
            (_, Severity::Medium) => Severity::Medium,
            _ => Severity::Info,
        }
    }
}

impl PartialOrd for Severity {
    fn partial_cmp(&self, other: &Severity) -> (r: Option<Ordering>) {
        match (*self, *other) {
            (Severity::Info, Severity::Info) => Some(Ordering::Equal),
            (Severity::Info, _) => Some(Ordering::Less),
            (Severity::Medium, Severity::Info) => Some(Ordering::Greater),
            (Severity::Medium, Severity::Medium) => Some(Ordering::Equal),
            (Severity::Medium, Severity::High) => Some(Ordering::Less),
            (Severity::High, Severity::High) => Some(Ordering::Equal),
            (Severity::High, _) => Some(Ordering::Greater),
        }
    }
}

impl vstd::std_specs::cmp::PartialOrdSpecImpl for Severity {
    open spec fn obeys_partial_cmp_spec() -> bool {
        true
    }

    open spec fn partial_cmp_spec(&self, other: &Severity) -> Option<Ordering> {
        Some(self.compare(*other))
    }
}

/// The order of the levels, which `<` and its kin compute, is strict and
/// total: `Info` is less than `Medium` and `Medium` less than `High`, two
/// levels compare equal only if they are the same, and the order is at one
/// with itself when read the other way round and along a chain. And no two
/// levels share a colour.
pub proof fn lemma_severity_order(a: Severity, b: Severity, c: Severity)
    ensures
        Severity::Info.partial_cmp_spec(&Severity::Medium) == Some(Ordering::Less),
        Severity::Medium.partial_cmp_spec(&Severity::High) == Some(Ordering::Less),
        Severity::Info.partial_cmp_spec(&Severity::High) == Some(Ordering::Less),
        a.partial_cmp_spec(&b) is Some,
        a.partial_cmp_spec(&b) == Some(Ordering::Equal) <==> a == b,
        a.partial_cmp_spec(&b) == Some(Ordering::Less) <==> b.partial_cmp_spec(&a) == Some(
            Ordering::Greater,
        ),
        a.partial_cmp_spec(&b) == Some(Ordering::Less) && b.partial_cmp_spec(&c) == Some(
            Ordering::Less,
        ) ==> a.partial_cmp_spec(&c) == Some(Ordering::Less),
        a.partial_cmp_spec(&b) == Some(Ordering::Less) <==> a.rank() < b.rank(),
        a.color() == b.color() ==> a == b,
{
}

} // verus!
