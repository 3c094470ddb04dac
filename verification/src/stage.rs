use vstd::prelude::*;

verus! {

use core::cmp::Ordering;
use vstd::std_specs::cmp::PartialOrdSpec;

/// Lifecycle phase of a tensegrity structure, from first construction to
/// settled equilibrium. Declaration order is the lifecycle order: a later
/// variant is a more settled structure.
#[derive(Clone, Copy, Debug, PartialEq, Eq, Structural)]
pub enum Stage {
    Busy,
    Growing,
    Shaping,
    Slack,
    Realizing,
    Realized,
}

/// Number of lifecycle stages.
pub const STAGE_COUNT: u8 = 6;

impl Stage {
    /// Position of the stage in the lifecycle order, also its stable
    /// small-integer tag across the host boundary.
    pub open spec fn ordinal(self) -> u8 {
        match self {
            Stage::Busy => 0u8,
            Stage::Growing => 1u8,
            Stage::Shaping => 2u8,
            Stage::Slack => 3u8,
            Stage::Realizing => 4u8,
            Stage::Realized => 5u8,
        }
    }

    /// Returns the stage's stable tag.
    pub fn tag(self) -> (t: u8)
        ensures
            t == self.ordinal(),
    {
        match self {
            Stage::Busy => 0u8,
            Stage::Growing => 1u8,
            Stage::Shaping => 2u8,
            Stage::Slack => 3u8,
            Stage::Realizing => 4u8,
            Stage::Realized => 5u8,
        }
    }

    /// Recovers a stage from its tag. An out-of-range tag is rejected,
    /// never mapped to a default stage.
    pub fn from_tag(t: u8) -> (r: Option<Stage>)
        ensures
            r is Some <==> t < STAGE_COUNT,
            r matches Some(s) ==> s.ordinal() == t,
            forall|s: Stage| #[trigger] s.ordinal() == t ==> r == Some(s),
    {
        if t == 0 {
            Some(Stage::Busy)
        } else if t == 1 {
            Some(Stage::Growing)
        } else if t == 2 {
            Some(Stage::Shaping)
        } else if t == 3 {
            Some(Stage::Slack)
        } else if t == 4 {
            Some(Stage::Realizing)
        } else if t == 5 {
            Some(Stage::Realized)
        } else {
            None
        }
    }
}

impl PartialOrd for Stage {
    fn partial_cmp(&self, other: &Stage) -> Option<Ordering> {
        let a: u8 = self.tag();
        let b: u8 = other.tag();
        if a < b {
            Some(Ordering::Less)
        } else if a == b {
            Some(Ordering::Equal)
        } else {
            Some(Ordering::Greater)
        }
    }
}

impl vstd::std_specs::cmp::PartialOrdSpecImpl for Stage {
    open spec fn obeys_partial_cmp_spec() -> bool {
        true
    }

    open spec fn partial_cmp_spec(&self, other: &Stage) -> Option<Ordering> {
        if self.ordinal() < other.ordinal() {
            Some(Ordering::Less)
        } else if self.ordinal() == other.ordinal() {
            Some(Ordering::Equal)
        } else {
            Some(Ordering::Greater)
        }
    }
}

/// Law: comparison of stages is the lifecycle order
/// `Busy < Growing < Shaping < Slack < Realizing < Realized`.
/// It is total and strict: every pair of stages is ordered, the order
/// follows the ordinals, and two stages compare equal only when they are
/// the same stage.
pub proof fn lemma_stage_order()
    ensures
        forall|a: Stage, b: Stage|
            #[trigger] a.partial_cmp_spec(&b) == Some(Ordering::Less) <==> a.ordinal()
                < b.ordinal(),
        forall|a: Stage, b: Stage|
            #[trigger] a.partial_cmp_spec(&b) == Some(Ordering::Equal) <==> a == b,
        forall|a: Stage, b: Stage|
            #[trigger] a.partial_cmp_spec(&b) == Some(Ordering::Greater) <==> a.ordinal()
                > b.ordinal(),
{
}

/// Law: no two distinct stages share an ordinal, and every ordinal is
/// below `STAGE_COUNT`, so tags identify stages uniquely.
pub proof fn lemma_stage_ordinal_injective()
    ensures
        forall|s: Stage| #[trigger] s.ordinal() < STAGE_COUNT,
        forall|a: Stage, b: Stage| a.ordinal() == b.ordinal() ==> a == b,
{
}

} // verus!
