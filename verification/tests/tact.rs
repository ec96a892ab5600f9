use senseshift::device::DevicePosition;
use senseshift::path_point_mapper::{accumulate_dot_point, PositionMapper};
use senseshift::tact::frame::{default_motor_count, DotPoint, PathPoint};
use senseshift::tact::{
    EffectDotMode, EffectDotModeFeedback, EffectDotModePoint, EffectFeedbackPlaybackType,
    EffectMode, EffectPathMode, EffectPathModeFeedback, EffectPathModeMovingPattern,
    EffectPathModePoint, Float64, HapticEffect, Layout, LayoutPoint, TactFileProject, Track,
};

fn f(v: f64) -> Float64 {
    Float64::from_bits(v.to_bits())
}

fn path_feedback(times: &[u32]) -> EffectPathModeFeedback {
    EffectPathModeFeedback::new(
        EffectFeedbackPlaybackType::FadeIn,
        EffectPathModeMovingPattern::ConstTdm,
        true,
        times.iter().map(|t| EffectPathModePoint::new(f(0.5), *t, f(0.1), f(0.2))).collect(),
    )
}

fn layout() -> Layout {
    Layout {
        name: "layout".to_string(),
        layout_type: "vest".to_string(),
        layouts: Some(vec![(
            DevicePosition::VestFront,
            vec![
                LayoutPoint { index: 0, x: f(0.0), y: f(0.0) },
                LayoutPoint { index: 1, x: f(0.5), y: f(0.25) },
                LayoutPoint { index: 2, x: f(1.0), y: f(1.0) },
            ],
        )]),
    }
}

fn project(tracks: Vec<Track>) -> TactFileProject {
    TactFileProject {
        id: Some("id".to_string()),
        name: None,
        description: None,
        tracks,
        layout: layout(),
        media_file_duration: None,
        created_at: None,
        updated_at: None,
    }
}

#[test]
fn durations() {
    let path = EffectPathMode::new(vec![path_feedback(&[10, 70, 30]), path_feedback(&[90, 20])]);
    let p = project(vec![]);
    assert_eq!(p.get_path_mode_duration(&path), 90);
    assert_eq!(p.get_total_duration(), 0);

    let dots = EffectDotMode::new(false, vec![]);
    let effect = HapticEffect::new(
        None,
        5,
        100,
        vec![
            (DevicePosition::VestFront, EffectMode::path_mode(path)),
            (DevicePosition::VestBack, EffectMode::dot_mode(dots)),
        ],
    );
    assert_eq!(p.get_effect_duration(&effect), 90);

    let short = HapticEffect::new(
        None,
        0,
        300,
        vec![(DevicePosition::Head, EffectMode::path_mode(EffectPathMode::new(vec![path_feedback(&[1])])))],
    );
    // Disabled tracks count too.
    let p = project(vec![Track::new(Some(true), vec![effect]), Track::new(Some(false), vec![short])]);
    assert_eq!(p.get_total_duration(), 301);
}

#[test]
fn rotation_applies_to_vest_and_head() {
    assert!(TactFileProject::is_rotation_applicable(&DevicePosition::VestFront));
    assert!(TactFileProject::is_rotation_applicable(&DevicePosition::VestBack));
    assert!(TactFileProject::is_rotation_applicable(&DevicePosition::Head));
    assert!(!TactFileProject::is_rotation_applicable(&DevicePosition::HandL));
    assert!(!TactFileProject::is_rotation_applicable(&DevicePosition::Vest));
}

fn dot_feedback(start: u32, dots: &[(u32, f64)]) -> EffectDotModeFeedback {
    EffectDotModeFeedback::new(
        start,
        start + 100,
        EffectFeedbackPlaybackType::FadeOut,
        dots.iter().map(|(i, v)| EffectDotModePoint::new(*i, f(*v))).collect(),
    )
}

#[test]
fn connected_dots_become_one_feedback() {
    let dots = EffectDotMode::new(
        true,
        vec![dot_feedback(0, &[(0, 0.5), (2, 1.0)]), dot_feedback(200, &[(1, 0.25)])],
    );
    let path = TactFileProject::convert_dot_mode_to_path_mode(&dots, DevicePosition::VestFront, &layout());
    assert_eq!(path.feedback.len(), 1);
    let fb = &path.feedback[0];
    assert_eq!(fb.playback_type, EffectFeedbackPlaybackType::FadeOut);
    assert_eq!(fb.moving_pattern, EffectPathModeMovingPattern::ConstSpeed);
    assert!(fb.visible);
    assert_eq!(
        fb.point_list,
        vec![
            EffectPathModePoint::new(f(0.5), 0, f(0.0), f(0.0)),
            EffectPathModePoint::new(f(1.0), 0, f(1.0), f(1.0)),
            EffectPathModePoint::new(f(0.25), 200, f(0.5), f(0.25)),
        ]
    );
}

#[test]
fn separate_dots_keep_their_feedbacks() {
    let dots = EffectDotMode::new(
        false,
        vec![dot_feedback(0, &[(0, 0.5)]), dot_feedback(200, &[(1, 0.25), (2, 0.75)])],
    );
    let path = TactFileProject::convert_dot_mode_to_path_mode(&dots, DevicePosition::VestFront, &layout());
    assert_eq!(path.feedback.len(), 2);
    assert_eq!(path.feedback[0].point_list, vec![EffectPathModePoint::new(f(0.5), 0, f(0.0), f(0.0))]);
    assert_eq!(
        path.feedback[1].point_list,
        vec![
            EffectPathModePoint::new(f(0.25), 200, f(0.5), f(0.25)),
            EffectPathModePoint::new(f(0.75), 200, f(1.0), f(1.0)),
        ]
    );
}

#[test]
fn dots_refer_to_the_layout_point_with_their_index() {
    let layout = Layout {
        name: "layout".to_string(),
        layout_type: "vest".to_string(),
        layouts: Some(vec![(
            DevicePosition::VestFront,
            vec![
                LayoutPoint { index: 1, x: f(0.5), y: f(0.25) },
                LayoutPoint { index: 0, x: f(0.75), y: f(1.0) },
            ],
        )]),
    };
    let dots = EffectDotMode::new(false, vec![dot_feedback(10, &[(0, 0.5), (1, 0.25)])]);
    let path = TactFileProject::convert_dot_mode_to_path_mode(&dots, DevicePosition::VestFront, &layout);
    assert_eq!(
        path.feedback[0].point_list,
        vec![
            EffectPathModePoint::new(f(0.5), 10, f(0.75), f(1.0)),
            EffectPathModePoint::new(f(0.25), 10, f(0.5), f(0.25)),
        ]
    );
}

#[test]
fn points_are_capped() {
    assert_eq!(DotPoint::new(3, 250), DotPoint { index: 3, intensity: 100 });
    assert_eq!(DotPoint::new(3, 42).intensity, 42);
    let p = PathPoint::new(f(0.5), f(0.5), 200);
    assert_eq!(p.intensity, 100);
    assert_eq!(p.motor_count, default_motor_count());
    assert_eq!(default_motor_count(), 3);
    assert_eq!(p.with_motor_count(5).motor_count, 5);
}

#[test]
fn position_mapper_lookup() {
    let mapper = PositionMapper::new(vec![
        (DevicePosition::VestFront, "front"),
        (DevicePosition::VestBack, "back"),
    ]);
    assert_eq!(mapper.get(&DevicePosition::VestBack), Some(&"back"));
    assert_eq!(mapper.get(&DevicePosition::Head), None);
}

#[test]
fn dots_accumulate_per_motor() {
    let mut dots = Vec::new();
    accumulate_dot_point(&mut dots, 4, 30, 30);
    accumulate_dot_point(&mut dots, 7, 150, 150);
    accumulate_dot_point(&mut dots, 4, 10, 50);
    accumulate_dot_point(&mut dots, 4, 10, 50);
    assert_eq!(
        dots,
        vec![DotPoint { index: 4, intensity: 100 }, DotPoint { index: 7, intensity: 100 }]
    );
    let mut dots = vec![DotPoint { index: 1, intensity: 10 }];
    accumulate_dot_point(&mut dots, 1, 99, 15);
    assert_eq!(dots, vec![DotPoint { index: 1, intensity: 25 }]);
}
