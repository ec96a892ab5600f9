use senseshift::device::DevicePosition;
use senseshift::tact::rotation::{group_by_device, rotate_effect, rotation_points};
use senseshift::tact::{
    EffectDotMode, EffectDotModeFeedback, EffectDotModePoint, EffectFeedbackPlaybackType,
    EffectMode, EffectPathMode, EffectPathModeFeedback, EffectPathModeMovingPattern,
    EffectPathModePoint, Float64, HapticEffect, Layout, LayoutPoint,
};

fn f(v: f64) -> Float64 {
    Float64::from_bits(v.to_bits())
}

fn pt(time: u32, x: f64) -> EffectPathModePoint {
    EffectPathModePoint::new(f(0.5), time, f(x), f(0.5))
}

fn path(playback: EffectFeedbackPlaybackType, points: Vec<EffectPathModePoint>) -> EffectMode {
    EffectMode::path_mode(EffectPathMode::new(vec![EffectPathModeFeedback::new(
        playback,
        EffectPathModeMovingPattern::ConstTdm,
        false,
        points,
    )]))
}

#[test]
fn groups_keep_order_and_drop_lost_points() {
    let moved = vec![
        Some((DevicePosition::VestBack, pt(0, 0.1))),
        None,
        Some((DevicePosition::VestFront, pt(1, 0.2))),
        Some((DevicePosition::VestBack, pt(2, 0.3))),
    ];
    let groups = group_by_device(&moved);
    assert_eq!(
        groups,
        vec![
            (DevicePosition::VestBack, vec![pt(0, 0.1), pt(2, 0.3)]),
            (DevicePosition::VestFront, vec![pt(1, 0.2)]),
        ]
    );
    assert!(group_by_device(&vec![None, None]).is_empty());
}

#[test]
fn source_points_of_path_and_dot_patterns() {
    let layout = Layout {
        name: "l".to_string(),
        layout_type: "t".to_string(),
        layouts: Some(vec![(
            DevicePosition::Head,
            vec![LayoutPoint { index: 0, x: f(0.25), y: f(0.75) }, LayoutPoint { index: 1, x: f(0.5), y: f(0.5) }],
        )]),
    };
    let p = EffectMode::path_mode(EffectPathMode::new(vec![
        EffectPathModeFeedback::new(EffectFeedbackPlaybackType::FadeIn, EffectPathModeMovingPattern::ConstSpeed, true, vec![pt(0, 0.1)]),
        EffectPathModeFeedback::new(EffectFeedbackPlaybackType::FadeOut, EffectPathModeMovingPattern::ConstSpeed, true, vec![pt(5, 0.2), pt(9, 0.3)]),
    ]));
    assert_eq!(rotation_points(&p, DevicePosition::Head, &layout), vec![pt(0, 0.1), pt(5, 0.2), pt(9, 0.3)]);

    let d = EffectMode::dot_mode(EffectDotMode::new(
        false,
        vec![EffectDotModeFeedback::new(
            30,
            60,
            EffectFeedbackPlaybackType::FadeInOut,
            vec![EffectDotModePoint::new(1, f(0.9)), EffectDotModePoint::new(0, f(0.1))],
        )],
    ));
    assert_eq!(
        rotation_points(&d, DevicePosition::Head, &layout),
        vec![
            EffectPathModePoint::new(f(0.9), 30, f(0.5), f(0.5)),
            EffectPathModePoint::new(f(0.1), 30, f(0.25), f(0.75)),
        ]
    );
}

#[test]
fn rotation_regroups_and_keeps_other_positions() {
    let hand = path(EffectFeedbackPlaybackType::FadeIn, vec![pt(0, 0.9)]);
    let effect = HapticEffect::new(
        Some("e".to_string()),
        3,
        7,
        vec![
            (DevicePosition::VestFront, path(EffectFeedbackPlaybackType::FadeOut, vec![pt(0, 0.1), pt(10, 0.2)])),
            (DevicePosition::HandL, hand.clone()),
            (DevicePosition::VestBack, path(EffectFeedbackPlaybackType::FadeIn, vec![pt(0, 0.3)])),
        ],
    );
    let moved = vec![
        // The front pattern: one point stays in front, one goes to the back.
        vec![Some((DevicePosition::VestFront, pt(0, 0.6))), Some((DevicePosition::VestBack, pt(10, 0.7)))],
        vec![],
        // The back pattern: its point leaves the vest.
        vec![None],
    ];
    let rotated = rotate_effect(effect, moved).unwrap();
    assert_eq!(rotated.name.as_deref(), Some("e"));
    assert_eq!((rotated.offset_time, rotated.start_time), (3, 7));
    assert_eq!(rotated.modes.len(), 3);
    let find = |p: DevicePosition| rotated.modes.iter().find(|(q, _)| *q == p).map(|(_, m)| m.clone());
    assert_eq!(find(DevicePosition::HandL), Some(hand));
    assert_eq!(find(DevicePosition::VestFront), Some(path_rotated(EffectFeedbackPlaybackType::FadeOut, vec![pt(0, 0.6)])));
    assert_eq!(find(DevicePosition::VestBack), Some(path_rotated(EffectFeedbackPlaybackType::FadeOut, vec![pt(10, 0.7)])));
}

fn path_rotated(playback: EffectFeedbackPlaybackType, points: Vec<EffectPathModePoint>) -> EffectMode {
    EffectMode::path_mode(EffectPathMode::new(vec![EffectPathModeFeedback::new(
        playback,
        EffectPathModeMovingPattern::ConstSpeed,
        true,
        points,
    )]))
}

#[test]
fn later_patterns_win_and_empty_effects_vanish() {
    let effect = HapticEffect::new(
        None,
        0,
        0,
        vec![
            (DevicePosition::VestFront, path(EffectFeedbackPlaybackType::FadeIn, vec![pt(0, 0.1)])),
            (DevicePosition::VestBack, path(EffectFeedbackPlaybackType::FadeOut, vec![pt(0, 0.2)])),
        ],
    );
    let moved = vec![
        vec![Some((DevicePosition::Head, pt(0, 0.11)))],
        vec![Some((DevicePosition::Head, pt(0, 0.22)))],
    ];
    let rotated = rotate_effect(effect, moved).unwrap();
    assert_eq!(
        rotated.modes,
        vec![(DevicePosition::Head, path_rotated(EffectFeedbackPlaybackType::FadeOut, vec![pt(0, 0.22)]))]
    );

    let gone = HapticEffect::new(None, 0, 0, vec![(DevicePosition::Head, path(EffectFeedbackPlaybackType::FadeIn, vec![pt(0, 0.5)]))]);
    assert!(rotate_effect(gone, vec![vec![None]]).is_none());
}

fn none_path(points: Vec<EffectPathModePoint>) -> EffectMode {
    EffectMode::path_mode(EffectPathMode::new(vec![EffectPathModeFeedback::new(
        EffectFeedbackPlaybackType::NoInterpolation,
        EffectPathModeMovingPattern::ConstSpeed,
        true,
        points,
    )]))
}

fn point(intensity: f64, time: u32, x: f64, y: f64) -> EffectPathModePoint {
    EffectPathModePoint::new(f(intensity), time, f(x), f(y))
}

#[test]
fn test_non_rotatable_devices_remain_unchanged() {
    let unrotated_hand_effect = none_path(vec![point(0.8, 100, 0.3, 0.7)]);
    let effect = HapticEffect::new(
        Some("hand_test".to_string()),
        1000,
        0,
        vec![
            (DevicePosition::HandL, unrotated_hand_effect.clone()),
            (DevicePosition::FootR, unrotated_hand_effect.clone()),
            (DevicePosition::GloveL, unrotated_hand_effect.clone()),
        ],
    );
    // Rotation moves no point of these patterns.
    let rotated = rotate_effect(effect, vec![vec![], vec![], vec![]]).unwrap();
    let mode = |p: DevicePosition| rotated.modes.iter().find(|(q, _)| *q == p).map(|(_, m)| m.clone());
    assert_eq!(mode(DevicePosition::HandL), Some(unrotated_hand_effect.clone()));
    assert_eq!(mode(DevicePosition::FootR), Some(unrotated_hand_effect.clone()));
    assert_eq!(mode(DevicePosition::GloveL), Some(unrotated_hand_effect));
}

#[test]
fn test_rotatable_devices_are_transformed() {
    let effect = HapticEffect::new(
        Some("vest_test".to_string()),
        1000,
        0,
        vec![(DevicePosition::VestFront, none_path(vec![point(0.8, 100, 0.0, 0.5)]))],
    );
    // Turned by 180 degrees, the point at x = 0 on the front lands at x = 0 on the back.
    let moved = vec![vec![Some((DevicePosition::VestBack, point(0.8, 100, 0.0, 0.5)))]];
    let rotated = rotate_effect(effect, moved).unwrap();
    assert!(!rotated.modes.iter().any(|(p, _)| *p == DevicePosition::VestFront));
    assert!(rotated.modes.iter().any(|(p, _)| *p == DevicePosition::VestBack));
}

#[test]
fn test_mixed_rotatable_and_non_rotatable_devices() {
    let hand_effect = none_path(vec![point(0.9, 200, 0.4, 0.6)]);
    let effect = HapticEffect::new(
        Some("mixed_test".to_string()),
        1000,
        0,
        vec![
            (DevicePosition::VestFront, none_path(vec![point(0.7, 150, 0.0, 0.5)])),
            (DevicePosition::HandL, hand_effect.clone()),
            (DevicePosition::FootR, hand_effect.clone()),
        ],
    );
    let moved = vec![vec![Some((DevicePosition::VestBack, point(0.7, 150, 0.0, 0.5)))], vec![], vec![]];
    let rotated = rotate_effect(effect, moved).unwrap();
    let mode = |p: DevicePosition| rotated.modes.iter().find(|(q, _)| *q == p).map(|(_, m)| m.clone());
    assert_eq!(mode(DevicePosition::HandL), Some(hand_effect.clone()));
    assert_eq!(mode(DevicePosition::FootR), Some(hand_effect));
    assert!(mode(DevicePosition::VestFront).is_none());
    assert!(mode(DevicePosition::VestBack).is_some());
}
