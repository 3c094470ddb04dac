use eig::stage::Stage;
use eig::stage::STAGE_COUNT;
use eig::surface::SurfaceCharacter;
use eig::surface::SURFACE_CHARACTER_COUNT;

const STAGES_IN_ORDER: [Stage; 6] = [
    Stage::Busy,
    Stage::Growing,
    Stage::Shaping,
    Stage::Slack,
    Stage::Realizing,
    Stage::Realized,
];

#[test]
fn stage_order_is_lifecycle_order() {
    assert!(Stage::Busy < Stage::Growing);
    assert!(Stage::Growing < Stage::Shaping);
    assert!(Stage::Shaping < Stage::Slack);
    assert!(Stage::Slack < Stage::Realizing);
    assert!(Stage::Realizing < Stage::Realized);
    for i in 0..6_usize {
        for j in 0..6_usize {
            let a = STAGES_IN_ORDER[i];
            let b = STAGES_IN_ORDER[j];
            assert_eq!(a < b, i < j);
            assert_eq!(a > b, i > j);
            assert_eq!(a == b, i == j);
            assert_eq!(a.partial_cmp(&b), Some(i.cmp(&j)));
        }
    }
}

#[test]
fn stage_tags_round_trip() {
    assert_eq!(STAGE_COUNT, 6);
    for t in 0..STAGE_COUNT {
        let stage = Stage::from_tag(t).unwrap();
        assert_eq!(stage.tag(), t);
        assert_eq!(STAGES_IN_ORDER[t as usize], stage);
    }
}

#[test]
fn stage_out_of_range_tag_fails() {
    assert_eq!(Stage::from_tag(6), None);
    assert_eq!(Stage::from_tag(99), None);
    assert_eq!(Stage::from_tag(255), None);
}

#[test]
fn surface_character_tags_round_trip() {
    assert_eq!(SURFACE_CHARACTER_COUNT, 4);
    let expected: [SurfaceCharacter; 4] = [
        SurfaceCharacter::Frozen,
        SurfaceCharacter::Sticky,
        SurfaceCharacter::Slippery,
        SurfaceCharacter::Bouncy,
    ];
    for t in 0..SURFACE_CHARACTER_COUNT {
        let character = SurfaceCharacter::from_tag(t).unwrap();
        assert_eq!(character.tag(), t);
        assert_eq!(expected[t as usize], character);
    }
    assert_eq!(SurfaceCharacter::from_tag(4), None);
    assert_eq!(SurfaceCharacter::from_tag(99), None);
}
