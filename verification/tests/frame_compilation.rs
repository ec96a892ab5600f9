use std::sync::Arc;

use senseshift::device::DevicePosition;
use senseshift::path_point_mapper::PositionMapper;
use senseshift::tact::frame_compilation::{FrameCompilationConfig, FrameCompiler, FrameSamples};
use senseshift::tact::{
    EffectDotMode, EffectDotModeFeedback, EffectDotModePoint, EffectFeedbackPlaybackType, EffectMode, EffectPathMode, EffectPathModeFeedback,
    EffectPathModeMovingPattern, EffectPathModePoint, Float64, HapticEffect, Layout,
    LayoutPoint, TactFileProject, Track,
};

fn f(v: f64) -> Float64 {
    Float64::from_bits(v.to_bits())
}

/// The grid size of an even-grid mapper, standing for the mapper itself.
type GridMapper = (u32, u32);

fn create_test_layout() -> Layout {
    Layout {
        name: "Test Layout".to_string(),
        layout_type: "Test Type".to_string(),
        layouts: Some(vec![
            (
                DevicePosition::VestFront,
                vec![
                    LayoutPoint { index: 0, x: f(0.0), y: f(0.0) },
                    LayoutPoint { index: 1, x: f(0.5), y: f(0.0) },
                    LayoutPoint { index: 2, x: f(1.0), y: f(0.0) },
                ],
            ),
            (DevicePosition::VestBack, vec![LayoutPoint { index: 3, x: f(0.0), y: f(0.0) }]),
        ]),
    }
}

fn create_test_position_mapper() -> Arc<PositionMapper<GridMapper>> {
    Arc::new(PositionMapper::new(vec![
        (DevicePosition::VestFront, (8, 4)),
        (DevicePosition::VestBack, (8, 4)),
    ]))
}

fn path_effect(
    name: &str,
    offset_time: u32,
    start_time: u32,
    position: DevicePosition,
    points: Vec<EffectPathModePoint>,
) -> HapticEffect {
    HapticEffect::new(
        Some(name.to_string()),
        offset_time,
        start_time,
        vec![(
            position,
            EffectMode::path_mode(EffectPathMode::new(vec![EffectPathModeFeedback::new(
                EffectFeedbackPlaybackType::NoInterpolation,
                EffectPathModeMovingPattern::ConstSpeed,
                true,
                points,
            )])),
        )],
    )
}

fn project(tracks: Vec<Track>) -> TactFileProject {
    TactFileProject {
        id: None,
        name: None,
        description: None,
        tracks,
        layout: create_test_layout(),
        media_file_duration: None,
        created_at: None,
        updated_at: None,
    }
}

fn point(intensity: f64, time: u32, x: f64, y: f64) -> EffectPathModePoint {
    EffectPathModePoint::new(f(intensity), time, f(x), f(y))
}

fn has_device(frame: &FrameSamples, position: DevicePosition) -> bool {
    frame.samples.iter().any(|s| s.position == position)
}

#[test]
fn test_frame_compilation_config() {
    let default_config = FrameCompilationConfig::default();
    assert_eq!(default_config.step_size_ms, 20);

    let custom_config = FrameCompilationConfig::new(10);
    assert_eq!(custom_config.step_size_ms, 10);
}

#[test]
fn test_frame_compiler_creation() {
    let config = FrameCompilationConfig::new(25);
    let position_mapper = create_test_position_mapper();
    let compiler = FrameCompiler::new(config, position_mapper);

    assert_eq!(compiler.config.step_size_ms, 25);
}

#[test]
fn test_simple_frame_compilation() {
    let project = project(vec![Track::new(
        Some(true),
        vec![path_effect(
            "test_effect",
            0,
            0,
            DevicePosition::VestFront,
            vec![point(0.5, 0, 0.0, 0.5), point(1.0, 100, 1.0, 0.5)],
        )],
    )]);

    let compiler = FrameCompiler::new(FrameCompilationConfig::new(50), create_test_position_mapper());
    let frames = compiler.compile(&project);

    assert!(frames.len() >= 3);
    let frame_0 = &frames[0];
    assert_eq!(frame_0.timestamp, 0);
    assert!(has_device(frame_0, DevicePosition::VestFront));
}

#[test]
fn test_configurable_step_size() {
    let project = project(vec![Track::new(
        Some(true),
        vec![path_effect(
            "test_effect",
            100,
            0,
            DevicePosition::VestFront,
            vec![point(1.0, 100, 0.0, 0.5)],
        )],
    )]);

    let position_mapper = create_test_position_mapper();
    let compiler_10ms = FrameCompiler::new(FrameCompilationConfig::new(10), position_mapper.clone());
    let frames_10ms = compiler_10ms.compile(&project);
    let compiler_25ms = FrameCompiler::new(FrameCompilationConfig::new(25), position_mapper);
    let frames_25ms = compiler_25ms.compile(&project);

    assert!(frames_10ms.len() > frames_25ms.len());
    for (i, frame) in frames_10ms.iter().enumerate() {
        assert_eq!(frame.timestamp, i as u32 * 10);
    }
    for (i, frame) in frames_25ms.iter().enumerate() {
        assert_eq!(frame.timestamp, i as u32 * 25);
    }
}

#[test]
fn test_empty_project() {
    let project = project(vec![]);
    let compiler = FrameCompiler::new(FrameCompilationConfig::new(20), create_test_position_mapper());
    let frames = compiler.compile(&project);
    assert!(frames.is_empty());
}

#[test]
fn test_frame_content_verification() {
    let project = project(vec![Track::new(
        Some(true),
        vec![path_effect(
            "content_test",
            0,
            0,
            DevicePosition::VestFront,
            vec![point(0.2, 0, 0.0, 0.5), point(0.8, 100, 1.0, 0.5)],
        )],
    )]);

    let compiler = FrameCompiler::new(FrameCompilationConfig::new(25), create_test_position_mapper());
    let frames = compiler.compile(&project);

    assert_eq!(frames.len(), 5);

    let frame_0 = &frames[0];
    assert_eq!(frame_0.timestamp, 0);
    assert!(has_device(frame_0, DevicePosition::VestFront));

    let frame_50 = &frames[2];
    assert_eq!(frame_50.timestamp, 50);
    assert!(has_device(frame_50, DevicePosition::VestFront));
    // Halfway between the two points.
    assert_eq!(frame_50.samples[0].local_time, 50);
    assert_eq!(frame_50.samples[0].before, Some(point(0.2, 0, 0.0, 0.5)));
    assert_eq!(frame_50.samples[0].after, Some(point(0.8, 100, 1.0, 0.5)));

    let frame_100 = &frames[4];
    assert_eq!(frame_100.timestamp, 100);
    assert!(has_device(frame_100, DevicePosition::VestFront));
    assert_eq!(frame_100.samples[0].before, Some(point(0.8, 100, 1.0, 0.5)));
    assert_eq!(frame_100.samples[0].after, None);
}

#[test]
fn test_interpolation_accuracy() {
    let project = project(vec![Track::new(
        Some(true),
        vec![path_effect(
            "interpolation_test",
            0,
            0,
            DevicePosition::VestFront,
            vec![point(0.0, 0, 0.0, 0.0), point(1.0, 200, 1.0, 1.0)],
        )],
    )]);

    let compiler = FrameCompiler::new(FrameCompilationConfig::new(100), create_test_position_mapper());
    let frames = compiler.compile(&project);

    assert_eq!(frames.len(), 3);
    for frame in &frames {
        assert!(
            has_device(frame, DevicePosition::VestFront),
            "Frame at {}ms should have points",
            frame.timestamp
        );
        assert_eq!(frame.samples.len(), 1);
        assert_eq!(frame.samples[0].local_time, frame.timestamp);
    }
    // At 0ms and 100ms the sample lies between the two points; at 200ms on the last.
    for frame in &frames[0..2] {
        assert_eq!(frame.samples[0].before, Some(point(0.0, 0, 0.0, 0.0)));
        assert_eq!(frame.samples[0].after, Some(point(1.0, 200, 1.0, 1.0)));
    }
    assert_eq!(frames[2].samples[0].before, Some(point(1.0, 200, 1.0, 1.0)));
    assert_eq!(frames[2].samples[0].after, None);
}

#[test]
fn test_effect_timing_boundaries() {
    let project = project(vec![Track::new(
        Some(true),
        vec![path_effect(
            "timing_test",
            50,
            10,
            DevicePosition::VestFront,
            vec![point(0.5, 0, 0.0, 0.5), point(1.0, 40, 1.0, 0.5)],
        )],
    )]);

    let compiler = FrameCompiler::new(FrameCompilationConfig::new(20), create_test_position_mapper());
    let frames = compiler.compile(&project);

    assert_eq!(frames.len(), 6);
    assert!(!has_device(&frames[0], DevicePosition::VestFront));
    assert!(!has_device(&frames[1], DevicePosition::VestFront));
    assert!(!has_device(&frames[2], DevicePosition::VestFront));
    assert!(has_device(&frames[3], DevicePosition::VestFront));
    assert!(has_device(&frames[4], DevicePosition::VestFront));
    assert!(has_device(&frames[5], DevicePosition::VestFront));
}

#[test]
fn test_multiple_tracks_compilation() {
    let project = project(vec![
        Track::new(
            Some(true),
            vec![path_effect(
                "track1_effect",
                0,
                0,
                DevicePosition::VestFront,
                vec![point(0.3, 50, 0.0, 0.5)],
            )],
        ),
        Track::new(
            Some(true),
            vec![path_effect(
                "track2_effect",
                0,
                0,
                DevicePosition::VestBack,
                vec![point(0.7, 50, 1.0, 0.5)],
            )],
        ),
    ]);

    let compiler = FrameCompiler::new(FrameCompilationConfig::new(25), create_test_position_mapper());
    let frames = compiler.compile(&project);

    assert_eq!(frames.len(), 3);
    for frame in &frames {
        assert!(
            has_device(frame, DevicePosition::VestFront),
            "Frame at {}ms should have VestFront effects",
            frame.timestamp
        );
        assert!(
            has_device(frame, DevicePosition::VestBack),
            "Frame at {}ms should have VestBack effects",
            frame.timestamp
        );
    }
}

#[test]
fn test_disabled_track_ignored() {
    let project = project(vec![
        Track::new(
            Some(true),
            vec![path_effect(
                "enabled_effect",
                0,
                0,
                DevicePosition::VestFront,
                vec![point(0.5, 50, 0.0, 0.5)],
            )],
        ),
        Track::new(
            Some(false),
            vec![path_effect(
                "disabled_effect",
                0,
                0,
                DevicePosition::VestBack,
                vec![point(0.8, 50, 1.0, 0.5)],
            )],
        ),
    ]);

    let compiler = FrameCompiler::new(FrameCompilationConfig::new(25), create_test_position_mapper());
    let frames = compiler.compile(&project);

    for frame in &frames {
        assert!(
            has_device(frame, DevicePosition::VestFront),
            "Frame at {}ms should have VestFront from enabled track",
            frame.timestamp
        );
        assert!(
            !has_device(frame, DevicePosition::VestBack),
            "Frame at {}ms should NOT have VestBack from disabled track",
            frame.timestamp
        );
    }
}

#[test]
fn before_and_after_pick_the_nearest_points() {
    let points = vec![point(0.1, 30, 0.0, 0.0), point(0.2, 10, 0.0, 0.0), point(0.3, 20, 0.0, 0.0)];
    let (before, after) =
        senseshift::tact::frame_compilation::interpolation_bounds(&points, 15);
    assert_eq!(before, Some(point(0.2, 10, 0.0, 0.0)));
    assert_eq!(after, Some(point(0.3, 20, 0.0, 0.0)));
    let (before, after) =
        senseshift::tact::frame_compilation::interpolation_bounds(&points, 5);
    assert_eq!(before, None);
    assert_eq!(after, Some(point(0.2, 10, 0.0, 0.0)));
}

#[test]
fn bounds_do_not_depend_on_point_order() {
    let points = vec![point(0.1, 30, 0.0, 0.0), point(0.2, 10, 0.0, 0.0), point(0.3, 20, 0.0, 0.0)];
    let mut reordered = points.clone();
    reordered.reverse();
    for t in [0, 10, 15, 20, 25, 30, 40] {
        assert_eq!(
            senseshift::tact::frame_compilation::interpolation_bounds(&points, t),
            senseshift::tact::frame_compilation::interpolation_bounds(&reordered, t)
        );
    }
    assert_eq!(
        senseshift::tact::frame_compilation::interpolation_bounds(&points, 40),
        (Some(point(0.1, 30, 0.0, 0.0)), None)
    );
    assert_eq!(
        senseshift::tact::frame_compilation::interpolation_bounds(&points, 10),
        (Some(point(0.2, 10, 0.0, 0.0)), Some(point(0.3, 20, 0.0, 0.0)))
    );
    assert_eq!(senseshift::tact::frame_compilation::interpolation_bounds(&[], 10), (None, None));
}

#[test]
fn disabled_tracks_still_count_but_play_nothing() {
    let project = project(vec![Track::new(
        Some(false),
        vec![path_effect("off", 0, 0, DevicePosition::VestFront, vec![point(0.5, 40, 0.0, 0.5)])],
    )]);
    let compiler = FrameCompiler::new(FrameCompilationConfig::new(20), create_test_position_mapper());
    let frames = compiler.compile(&project);
    assert_eq!(frames.len(), 3);
    assert!(frames.iter().all(|f| f.samples.is_empty()));
}

#[test]
fn dot_mode_effects_give_no_samples() {
    let dots = HapticEffect::new(
        None,
        0,
        0,
        vec![(
            DevicePosition::VestBack,
            EffectMode::dot_mode(EffectDotMode::new(
                false,
                vec![EffectDotModeFeedback::new(
                    0,
                    100,
                    EffectFeedbackPlaybackType::NoInterpolation,
                    vec![EffectDotModePoint::new(0, f(1.0))],
                )],
            )),
        )],
    );
    let path = path_effect("p", 0, 0, DevicePosition::VestFront, vec![point(0.5, 20, 0.0, 0.5)]);
    let project = project(vec![Track::new(None, vec![dots, path])]);
    let compiler = FrameCompiler::new(FrameCompilationConfig::new(10), create_test_position_mapper());
    let frames = compiler.compile(&project);
    assert_eq!(frames.len(), 3);
    for frame in &frames {
        assert!(has_device(frame, DevicePosition::VestFront));
        assert!(!has_device(frame, DevicePosition::VestBack));
    }
}
