use eig::feature::default_fabric_feature_bits;
use eig::feature::FabricFeature;
use eig::role::default_rest_length_bits;
use eig::role::IntervalRole;
use eig::role::CROSS1_BITS;
use eig::role::CROSS2_BITS;
use eig::role::CROSS3_BITS;
use eig::role::NEXUS_CROSS_LENGTH_BITS;
use eig::role::PHI_BITS;
use eig::role::RING_LENGTH_BITS;
use eig::role::ROOT2_BITS;
use eig::role::ROOT3_BITS;
use eig::role::ROOT5_BITS;

const ROOT2: f32 = 1.414213562373095;
const ROOT3: f32 = 1.732050807568877;
const ROOT5: f32 = 2.23606797749979;
const PHI: f32 = (1_f32 + ROOT5) / 2_f32;
const CROSS1: f32 = 0.5_f32;
const CROSS2: f32 = (PHI / 3_f32 - 1_f32 / 6_f32) * ROOT3;
const CROSS3: f32 = PHI / 3_f32 * ROOT3 - 1_f32 + ROOT2 / ROOT3;

fn ring_length() -> f32 {
    (2_f32 - 2_f32 * (2_f32 / 3_f32).sqrt()).sqrt()
}

fn nexus_cross_length() -> f32 {
    (CROSS1 * CROSS1 + CROSS2 * CROSS2 + CROSS3 * CROSS3).sqrt()
}

#[test]
fn geometric_constants_exact() {
    assert_eq!(ROOT2_BITS, ROOT2.to_bits());
    assert_eq!(ROOT3_BITS, ROOT3.to_bits());
    assert_eq!(ROOT5_BITS, ROOT5.to_bits());
    assert_eq!(PHI_BITS, PHI.to_bits());
    assert_eq!(CROSS1_BITS, CROSS1.to_bits());
    assert_eq!(CROSS2_BITS, CROSS2.to_bits());
    assert_eq!(CROSS3_BITS, CROSS3.to_bits());
}

#[test]
fn derived_lengths_consistent() {
    assert_eq!(RING_LENGTH_BITS, ring_length().to_bits());
    assert_eq!(NEXUS_CROSS_LENGTH_BITS, nexus_cross_length().to_bits());
    let c1: f32 = f32::from_bits(CROSS1_BITS);
    let c2: f32 = f32::from_bits(CROSS2_BITS);
    let c3: f32 = f32::from_bits(CROSS3_BITS);
    assert_eq!(
        f32::from_bits(NEXUS_CROSS_LENGTH_BITS),
        (c1 * c1 + c2 * c2 + c3 * c3).sqrt()
    );
    assert_eq!(
        f32::from_bits(RING_LENGTH_BITS),
        (2.0_f32 - 2.0_f32 * (2.0_f32 / 3.0_f32).sqrt()).sqrt()
    );
}

#[test]
fn feature_defaults_exact() {
    let cases: [(FabricFeature, f32); 24] = [
        (FabricFeature::Gravity, 0.0000001_f32),
        (FabricFeature::Drag, 0.0001_f32),
        (FabricFeature::PretenstFactor, 0.03_f32),
        (FabricFeature::IterationsPerFrame, 100_f32),
        (FabricFeature::IntervalCountdown, 1000_f32),
        (FabricFeature::RealizingCountdown, 30000_f32),
        (FabricFeature::SlackThreshold, 0.0001_f32),
        (FabricFeature::ShapingPretenstFactor, 0.1_f32),
        (FabricFeature::ShapingStiffnessFactor, 10_f32),
        (FabricFeature::ShapingDrag, 0.1_f32),
        (FabricFeature::MaxStrain, 0.1_f32),
        (FabricFeature::VisualStrain, 1_f32),
        (FabricFeature::NexusPushLength, PHI),
        (FabricFeature::ColumnPushLength, ROOT2),
        (FabricFeature::TriangleLength, 1_f32),
        (FabricFeature::RingLength, ring_length()),
        (FabricFeature::NexusCrossLength, nexus_cross_length()),
        (FabricFeature::ColumnCrossLength, 1_f32),
        (FabricFeature::BowMidLength, 0.4_f32),
        (FabricFeature::BowEndLength, 0.6_f32),
        (FabricFeature::PushOverPull, 1_f32),
        (FabricFeature::PushRadiusFactor, 4_f32),
        (FabricFeature::PullRadiusFactor, 2_f32),
        (FabricFeature::MaxStiffness, 0.0005_f32),
    ];
    for (feature, expected) in cases {
        assert_eq!(default_fabric_feature_bits(feature), expected.to_bits());
    }
}

#[test]
fn rest_lengths_exact() {
    let cases: [(IntervalRole, f32); 8] = [
        (IntervalRole::NexusPush, PHI),
        (IntervalRole::ColumnPush, ROOT2),
        (IntervalRole::Triangle, 1_f32),
        (IntervalRole::Ring, ring_length()),
        (IntervalRole::NexusCross, nexus_cross_length()),
        (IntervalRole::ColumnCross, 1_f32),
        (IntervalRole::BowMid, 0.4_f32),
        (IntervalRole::BowEnd, 0.6_f32),
    ];
    for (role, expected) in cases {
        assert_eq!(default_rest_length_bits(role), Some(expected.to_bits()));
    }
    assert_eq!(default_rest_length_bits(IntervalRole::FacePull), None);
}

#[test]
fn length_features_match_role_lengths() {
    let pairs: [(FabricFeature, IntervalRole); 8] = [
        (FabricFeature::NexusPushLength, IntervalRole::NexusPush),
        (FabricFeature::ColumnPushLength, IntervalRole::ColumnPush),
        (FabricFeature::TriangleLength, IntervalRole::Triangle),
        (FabricFeature::RingLength, IntervalRole::Ring),
        (FabricFeature::NexusCrossLength, IntervalRole::NexusCross),
        (FabricFeature::ColumnCrossLength, IntervalRole::ColumnCross),
        (FabricFeature::BowMidLength, IntervalRole::BowMid),
        (FabricFeature::BowEndLength, IntervalRole::BowEnd),
    ];
    for (feature, role) in pairs {
        assert_eq!(
            Some(default_fabric_feature_bits(feature)),
            default_rest_length_bits(role)
        );
    }
}

#[test]
fn lookups_idempotent() {
    for t in 0..24_u8 {
        let feature = FabricFeature::from_tag(t).unwrap();
        assert_eq!(
            default_fabric_feature_bits(feature),
            default_fabric_feature_bits(feature)
        );
    }
    for t in 0..9_u8 {
        let role = IntervalRole::from_tag(t).unwrap();
        assert_eq!(default_rest_length_bits(role), default_rest_length_bits(role));
    }
}
