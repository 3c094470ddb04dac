use vstd::prelude::*;

verus! {

use crate::role::IntervalRole;
use crate::role::BOW_END_LENGTH_BITS;
use crate::role::BOW_MID_LENGTH_BITS;
use crate::role::NEXUS_CROSS_LENGTH_BITS;
use crate::role::ONE_BITS;
use crate::role::PHI_BITS;
use crate::role::RING_LENGTH_BITS;
use crate::role::ROOT2_BITS;
use crate::role::rest_length_bits;

/// A tunable numeric parameter of the force integrator. Each feature has
/// exactly one factory-default value, fixed at build time; any override
/// mechanism layers on top of this table elsewhere.
#[derive(Clone, Copy, Debug, Hash, PartialEq, Eq, Structural)]
pub enum FabricFeature {
    Gravity,
    Drag,
    PretenstFactor,
    IterationsPerFrame,
    IntervalCountdown,
    RealizingCountdown,
    SlackThreshold,
    ShapingPretenstFactor,
    ShapingStiffnessFactor,
    ShapingDrag,
    MaxStrain,
    VisualStrain,
    NexusPushLength,
    ColumnPushLength,
    TriangleLength,
    RingLength,
    NexusCrossLength,
    ColumnCrossLength,
    BowMidLength,
    BowEndLength,
    PushOverPull,
    PushRadiusFactor,
    PullRadiusFactor,
    MaxStiffness,
}

/// Number of fabric features.
pub const FABRIC_FEATURE_COUNT: u8 = 24;

/// The factory default of each feature, as the binary32 pattern of the
/// single-precision value. The per-role length features repeat the rest
/// lengths of the role table; the remaining patterns are spelled out with
/// the value they encode.
pub open spec fn feature_default_bits(feature: FabricFeature) -> u32 {
    match feature {
        FabricFeature::Gravity => 0x33D6_BF95u32,  // 1e-7
        FabricFeature::Drag => 0x38D1_B717u32,  // 1e-4
        FabricFeature::PretenstFactor => 0x3CF5_C28Fu32,  // 0.03
        FabricFeature::IterationsPerFrame => 0x42C8_0000u32,  // 100
        FabricFeature::IntervalCountdown => 0x447A_0000u32,  // 1000
        FabricFeature::RealizingCountdown => 0x46EA_6000u32,  // 30000
        FabricFeature::SlackThreshold => 0x38D1_B717u32,  // 1e-4
        FabricFeature::ShapingPretenstFactor => 0x3DCC_CCCDu32,  // 0.1
        FabricFeature::ShapingStiffnessFactor => 0x4120_0000u32,  // 10
        FabricFeature::ShapingDrag => 0x3DCC_CCCDu32,  // 0.1
        FabricFeature::MaxStrain => 0x3DCC_CCCDu32,  // 0.1
        FabricFeature::VisualStrain => ONE_BITS,
        FabricFeature::NexusPushLength => PHI_BITS,
        FabricFeature::ColumnPushLength => ROOT2_BITS,
        FabricFeature::TriangleLength => ONE_BITS,
        FabricFeature::RingLength => RING_LENGTH_BITS,
        FabricFeature::NexusCrossLength => NEXUS_CROSS_LENGTH_BITS,
        FabricFeature::ColumnCrossLength => ONE_BITS,
        FabricFeature::BowMidLength => BOW_MID_LENGTH_BITS,
        FabricFeature::BowEndLength => BOW_END_LENGTH_BITS,
        FabricFeature::PushOverPull => ONE_BITS,
        FabricFeature::PushRadiusFactor => 0x4080_0000u32,  // 4
        FabricFeature::PullRadiusFactor => 0x4000_0000u32,  // 2
        FabricFeature::MaxStiffness => 0x3A03_126Fu32,  // 5e-4
    }
}

/// Returns the factory default of `feature` as a binary32 pattern. The
/// mapping is total: every feature has exactly one default.
pub fn default_fabric_feature_bits(feature: FabricFeature) -> (r: u32)
    ensures
        r == feature_default_bits(feature),
{
    match feature {
        FabricFeature::Gravity => 0x33D6_BF95u32,
        FabricFeature::Drag => 0x38D1_B717u32,
        FabricFeature::PretenstFactor => 0x3CF5_C28Fu32,
        FabricFeature::IterationsPerFrame => 0x42C8_0000u32,
        FabricFeature::IntervalCountdown => 0x447A_0000u32,
        FabricFeature::RealizingCountdown => 0x46EA_6000u32,
        FabricFeature::SlackThreshold => 0x38D1_B717u32,
        FabricFeature::ShapingPretenstFactor => 0x3DCC_CCCDu32,
        FabricFeature::ShapingStiffnessFactor => 0x4120_0000u32,
        FabricFeature::ShapingDrag => 0x3DCC_CCCDu32,
        FabricFeature::MaxStrain => 0x3DCC_CCCDu32,
        FabricFeature::VisualStrain => ONE_BITS,
        FabricFeature::NexusPushLength => PHI_BITS,
        FabricFeature::ColumnPushLength => ROOT2_BITS,
        FabricFeature::TriangleLength => ONE_BITS,
        FabricFeature::RingLength => RING_LENGTH_BITS,
        FabricFeature::NexusCrossLength => NEXUS_CROSS_LENGTH_BITS,
        FabricFeature::ColumnCrossLength => ONE_BITS,
        FabricFeature::BowMidLength => BOW_MID_LENGTH_BITS,
        FabricFeature::BowEndLength => BOW_END_LENGTH_BITS,
        FabricFeature::PushOverPull => ONE_BITS,
        FabricFeature::PushRadiusFactor => 0x4080_0000u32,
        FabricFeature::PullRadiusFactor => 0x4000_0000u32,
        FabricFeature::MaxStiffness => 0x3A03_126Fu32,
    }
}

/// The per-role length feature of each role: the feature whose default
/// repeats the role's rest length. `FacePull` has no length feature, as it
/// has no rest length.
pub open spec fn length_feature_of(role: IntervalRole) -> Option<FabricFeature> {
    match role {
        IntervalRole::NexusPush => Some(FabricFeature::NexusPushLength),
        IntervalRole::ColumnPush => Some(FabricFeature::ColumnPushLength),
        IntervalRole::Triangle => Some(FabricFeature::TriangleLength),
        IntervalRole::Ring => Some(FabricFeature::RingLength),
        IntervalRole::NexusCross => Some(FabricFeature::NexusCrossLength),
        IntervalRole::ColumnCross => Some(FabricFeature::ColumnCrossLength),
        IntervalRole::BowMid => Some(FabricFeature::BowMidLength),
        IntervalRole::BowEnd => Some(FabricFeature::BowEndLength),
        IntervalRole::FacePull => None,
    }
}

/// Law: the feature table and the role table agree. A role has a length
/// feature exactly when it has a rest length, and the feature's default is
/// bit for bit the role's rest length, so neither table can drift from
/// the other.
pub proof fn lemma_length_features_match_roles()
    ensures
        forall|role: IntervalRole|
            #[trigger] length_feature_of(role) is Some <==> rest_length_bits(role) is Some,
        forall|role: IntervalRole|
            #[trigger] length_feature_of(role) matches Some(f) ==> Some(
                feature_default_bits(f),
            ) == rest_length_bits(role),
{
}

impl FabricFeature {
    /// Position of the feature in declaration order, also its stable
    /// small-integer tag across the host boundary.
    pub open spec fn ordinal(self) -> u8 {
        match self {
            FabricFeature::Gravity => 0u8,
            FabricFeature::Drag => 1u8,
            FabricFeature::PretenstFactor => 2u8,
            FabricFeature::IterationsPerFrame => 3u8,
            FabricFeature::IntervalCountdown => 4u8,
            FabricFeature::RealizingCountdown => 5u8,
            FabricFeature::SlackThreshold => 6u8,
            FabricFeature::ShapingPretenstFactor => 7u8,
            FabricFeature::ShapingStiffnessFactor => 8u8,
            FabricFeature::ShapingDrag => 9u8,
            FabricFeature::MaxStrain => 10u8,
            FabricFeature::VisualStrain => 11u8,
            FabricFeature::NexusPushLength => 12u8,
            FabricFeature::ColumnPushLength => 13u8,
            FabricFeature::TriangleLength => 14u8,
            FabricFeature::RingLength => 15u8,
            FabricFeature::NexusCrossLength => 16u8,
            FabricFeature::ColumnCrossLength => 17u8,
            FabricFeature::BowMidLength => 18u8,
            FabricFeature::BowEndLength => 19u8,
            FabricFeature::PushOverPull => 20u8,
            FabricFeature::PushRadiusFactor => 21u8,
            FabricFeature::PullRadiusFactor => 22u8,
            FabricFeature::MaxStiffness => 23u8,
        }
    }

    /// Returns the feature's stable tag.
    pub fn tag(self) -> (t: u8)
        ensures
            t == self.ordinal(),
    {
        match self {
            FabricFeature::Gravity => 0u8,
            FabricFeature::Drag => 1u8,
            FabricFeature::PretenstFactor => 2u8,
            FabricFeature::IterationsPerFrame => 3u8,
            FabricFeature::IntervalCountdown => 4u8,
            FabricFeature::RealizingCountdown => 5u8,
            FabricFeature::SlackThreshold => 6u8,
            FabricFeature::ShapingPretenstFactor => 7u8,
            FabricFeature::ShapingStiffnessFactor => 8u8,
            FabricFeature::ShapingDrag => 9u8,
            FabricFeature::MaxStrain => 10u8,
            FabricFeature::VisualStrain => 11u8,
            FabricFeature::NexusPushLength => 12u8,
            FabricFeature::ColumnPushLength => 13u8,
            FabricFeature::TriangleLength => 14u8,
            FabricFeature::RingLength => 15u8,
            FabricFeature::NexusCrossLength => 16u8,
            FabricFeature::ColumnCrossLength => 17u8,
            FabricFeature::BowMidLength => 18u8,
            FabricFeature::BowEndLength => 19u8,
            FabricFeature::PushOverPull => 20u8,
            FabricFeature::PushRadiusFactor => 21u8,
            FabricFeature::PullRadiusFactor => 22u8,
            FabricFeature::MaxStiffness => 23u8,
        }
    }

    /// Recovers a feature from its tag. An out-of-range tag is rejected,
    /// never mapped to a default feature.
    pub fn from_tag(t: u8) -> (r: Option<FabricFeature>)
        ensures
            r is Some <==> t < FABRIC_FEATURE_COUNT,
            r matches Some(f) ==> f.ordinal() == t,
            forall|f: FabricFeature| #[trigger] f.ordinal() == t ==> r == Some(f),
    {
        if t == 0 {
            Some(FabricFeature::Gravity)
        } else if t == 1 {
            Some(FabricFeature::Drag)
        } else if t == 2 {
            Some(FabricFeature::PretenstFactor)
        } else if t == 3 {
            Some(FabricFeature::IterationsPerFrame)
        } else if t == 4 {
            Some(FabricFeature::IntervalCountdown)
        } else if t == 5 {
            Some(FabricFeature::RealizingCountdown)
        } else if t == 6 {
            Some(FabricFeature::SlackThreshold)
        } else if t == 7 {
            Some(FabricFeature::ShapingPretenstFactor)
        } else if t == 8 {
            Some(FabricFeature::ShapingStiffnessFactor)
        } else if t == 9 {
            Some(FabricFeature::ShapingDrag)
        } else if t == 10 {
            Some(FabricFeature::MaxStrain)
        } else if t == 11 {
            Some(FabricFeature::VisualStrain)
        } else if t == 12 {
            Some(FabricFeature::NexusPushLength)
        } else if t == 13 {
            Some(FabricFeature::ColumnPushLength)
        } else if t == 14 {
            Some(FabricFeature::TriangleLength)
        } else if t == 15 {
            Some(FabricFeature::RingLength)
        } else if t == 16 {
            Some(FabricFeature::NexusCrossLength)
        } else if t == 17 {
            Some(FabricFeature::ColumnCrossLength)
        } else if t == 18 {
            Some(FabricFeature::BowMidLength)
        } else if t == 19 {
            Some(FabricFeature::BowEndLength)
        } else if t == 20 {
            Some(FabricFeature::PushOverPull)
        } else if t == 21 {
            Some(FabricFeature::PushRadiusFactor)
        } else if t == 22 {
            Some(FabricFeature::PullRadiusFactor)
        } else if t == 23 {
            Some(FabricFeature::MaxStiffness)
        } else {
            None
        }
    }
}

/// Law: no two distinct features share an ordinal, and every ordinal is
/// below `FABRIC_FEATURE_COUNT`, so tags identify features uniquely.
pub proof fn lemma_feature_ordinal_injective()
    ensures
        forall|f: FabricFeature| #[trigger] f.ordinal() < FABRIC_FEATURE_COUNT,
        forall|a: FabricFeature, b: FabricFeature| a.ordinal() == b.ordinal() ==> a == b,
{
}

} // verus!
