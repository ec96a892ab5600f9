//! The `.tact` file schema: projects made of tracks, tracks made of effects, and effects
//! that play a dot-mode or a path-mode pattern on each device position.
//!
//! Floating-point quantities (coordinates, intensities) are carried through unchanged as
//! [`Float64`] bit patterns; the logic here reads only times, indices and structure.
use vstd::prelude::*;
use crate::device::DevicePosition;

pub mod duration;
pub mod frame;
pub mod dot_to_path;
pub mod frame_compilation;
pub mod rotation;

verus! {

/// An IEEE-754 double carried by its bit pattern (`f64::to_bits`). This library never
/// computes with it; it only moves it from one place to another.
#[derive(Clone, Copy, Debug, PartialEq, Eq, Structural, Hash)]
pub struct Float64 {
    pub bits: u64,
}

impl Float64 {
    /// The double with bit pattern `bits`.
    pub fn from_bits(bits: u64) -> (r: Float64)
        ensures
            r.bits == bits,
    {
        Float64 { bits }
    }
}

/// An IEEE-754 single carried by its bit pattern (`f32::to_bits`); never computed with.
#[derive(Clone, Copy, Debug, PartialEq, Eq, Structural, Hash)]
pub struct Float32 {
    pub bits: u32,
}

/// How the intensity of a feedback evolves over its duration.
#[derive(Clone, Copy, Debug, PartialEq, Eq, Structural, Hash)]
pub enum EffectFeedbackPlaybackType {
    /// No interpolation (named `NONE` in the file format)
    NoInterpolation,
    /// Linear fade in
    FadeIn,
    /// Linear fade out.
    FadeOut,
    /// Linear fade in and out.
    FadeInOut,
}

/// How a path-mode feedback moves between its points.
#[derive(Clone, Copy, Debug, PartialEq, Eq, Structural, Hash)]
pub enum EffectPathModeMovingPattern {
    ConstSpeed,
    ConstTdm,
}

/// One motor of a dot-mode feedback.
#[derive(Clone, Copy, Debug, PartialEq, Eq, Structural)]
pub struct EffectDotModePoint {
    /// Index into the layout points of the device position; at the same time the motor
    /// index in the standard sense.
    pub index: u32,
    pub intensity: Float64,
}

impl EffectDotModePoint {
    pub fn new(index: u32, intensity: Float64) -> (r: Self)
        ensures
            r == (EffectDotModePoint { index, intensity }),
    {
        EffectDotModePoint { index, intensity }
    }
}

/// A dot-mode feedback: a set of motors played between two times.
#[derive(Clone, Debug, PartialEq, Eq)]
pub struct EffectDotModeFeedback {
    pub start_time: u32,
    pub end_time: u32,
    pub playback_type: EffectFeedbackPlaybackType,
    pub point_list: Vec<EffectDotModePoint>,
}

impl EffectDotModeFeedback {
    pub fn new(
        start_time: u32,
        end_time: u32,
        playback_type: EffectFeedbackPlaybackType,
        point_list: Vec<EffectDotModePoint>,
    ) -> (r: Self)
        ensures
            r.start_time == start_time,
            r.end_time == end_time,
            r.playback_type == playback_type,
            r.point_list@ == point_list@,
    {
        EffectDotModeFeedback { start_time, end_time, playback_type, point_list }
    }
}

/// A dot-mode pattern.
#[derive(Clone, Debug, PartialEq, Eq)]
pub struct EffectDotMode {
    pub dot_connected: bool,
    pub feedback: Vec<EffectDotModeFeedback>,
}

impl EffectDotMode {
    pub fn new(dot_connected: bool, feedback: Vec<EffectDotModeFeedback>) -> (r: Self)
        ensures
            r.dot_connected == dot_connected,
            r.feedback@ == feedback@,
    {
        EffectDotMode { dot_connected, feedback }
    }
}

/// One point of a path-mode feedback, at a time relative to the effect's start.
#[derive(Clone, Copy, Debug, PartialEq, Eq, Structural)]
pub struct EffectPathModePoint {
    pub intensity: Float64,
    pub time: u32,
    pub x: Float64,
    pub y: Float64,
}

impl EffectPathModePoint {
    pub fn new(intensity: Float64, time: u32, x: Float64, y: Float64) -> (r: Self)
        ensures
            r == (EffectPathModePoint { intensity, time, x, y }),
    {
        EffectPathModePoint { intensity, time, x, y }
    }
}

/// A path-mode feedback: a moving point.
#[derive(Clone, Debug, PartialEq, Eq)]
pub struct EffectPathModeFeedback {
    pub playback_type: EffectFeedbackPlaybackType,
    pub moving_pattern: EffectPathModeMovingPattern,
    pub visible: bool,
    pub point_list: Vec<EffectPathModePoint>,
}

impl EffectPathModeFeedback {
    pub fn new(
        playback_type: EffectFeedbackPlaybackType,
        moving_pattern: EffectPathModeMovingPattern,
        visible: bool,
        point_list: Vec<EffectPathModePoint>,
    ) -> (r: Self)
        ensures
            r.playback_type == playback_type,
            r.moving_pattern == moving_pattern,
            r.visible == visible,
            r.point_list@ == point_list@,
    {
        EffectPathModeFeedback { playback_type, moving_pattern, visible, point_list }
    }
}

/// A path-mode pattern.
#[derive(Clone, Debug, PartialEq, Eq)]
pub struct EffectPathMode {
    pub feedback: Vec<EffectPathModeFeedback>,
}

impl EffectPathMode {
    pub fn new(feedback: Vec<EffectPathModeFeedback>) -> (r: Self)
        ensures
            r.feedback@ == feedback@,
    {
        EffectPathMode { feedback }
    }
}

/// The pattern an effect plays on one device position: only the one selected by the
/// `mode` field is used.
#[derive(Clone, Debug, PartialEq, Eq)]
pub enum EffectMode {
    DotMode { dot_mode: EffectDotMode },
    PathMode { path_mode: EffectPathMode },
}

impl EffectMode {
    pub fn dot_mode(dot_mode: EffectDotMode) -> (r: Self)
        ensures
            r matches EffectMode::DotMode { dot_mode: d } && d.dot_connected
                == dot_mode.dot_connected && d.feedback@ == dot_mode.feedback@,
    {
        EffectMode::DotMode { dot_mode }
    }

    pub fn path_mode(path_mode: EffectPathMode) -> (r: Self)
        ensures
            r matches EffectMode::PathMode { path_mode: p } && p.feedback@ == path_mode.feedback@,
    {
        EffectMode::PathMode { path_mode }
    }
}

/// No device position occurs twice among the keys of `modes`.
pub open spec fn distinct_positions<V>(modes: Seq<(DevicePosition, V)>) -> bool {
    forall|i: int, j: int| 0 <= i < j < modes.len() ==> modes[i].0 != modes[j].0
}

/// A haptic effect: the patterns it plays on each device position, and when.
///
/// `modes` maps device positions to patterns; no position occurs twice.
#[derive(Clone, Debug, PartialEq, Eq)]
pub struct HapticEffect {
    pub name: Option<String>,
    pub offset_time: u32,
    pub start_time: u32,
    pub modes: Vec<(DevicePosition, EffectMode)>,
}

impl HapticEffect {
    /// No device position has two patterns.
    pub open spec fn wf(&self) -> bool {
        distinct_positions(self.modes@)
    }

    pub fn new(
        name: Option<String>,
        offset_time: u32,
        start_time: u32,
        modes: Vec<(DevicePosition, EffectMode)>,
    ) -> (r: Self)
        requires
            distinct_positions(modes@),
        ensures
            r.name == name,
            r.offset_time == offset_time,
            r.start_time == start_time,
            r.modes@ == modes@,
            r.wf(),
    {
        HapticEffect { name, offset_time, start_time, modes }
    }
}

/// A track: a list of effects that can be switched off as a whole.
#[derive(Clone, Debug, PartialEq, Eq)]
pub struct Track {
    pub enable: Option<bool>,
    pub effects: Vec<HapticEffect>,
}

impl Track {
    pub fn new(enable: Option<bool>, effects: Vec<HapticEffect>) -> (r: Self)
        ensures
            r.enable == enable,
            r.effects@ == effects@,
    {
        Track { enable, effects }
    }
}

/// A point of a device layout.
#[derive(Clone, Copy, Debug, PartialEq, Eq, Structural)]
pub struct LayoutPoint {
    pub index: u32,
    pub x: Float64,
    pub y: Float64,
}

/// The layout of the devices a project was made for.
#[derive(Clone, Debug, PartialEq, Eq)]
pub struct Layout {
    pub name: String,
    /// The kind of layout (named `type` in the file format).
    pub layout_type: String,
    /// Points to reference in tracks, per device position (no position occurs twice).
    pub layouts: Option<Vec<(DevicePosition, Vec<LayoutPoint>)>>,
}

impl Layout {
    /// No device position has two lists of points.
    pub open spec fn wf(&self) -> bool {
        self.layouts matches Some(v) ==> distinct_positions(v@)
    }
}

/// The content of a `.tact` file.
#[derive(Clone, Debug, PartialEq, Eq)]
pub struct TactFileProject {
    pub id: Option<String>,
    pub name: Option<String>,
    pub description: Option<String>,
    pub tracks: Vec<Track>,
    pub layout: Layout,
    pub media_file_duration: Option<Float64>,
    pub created_at: Option<u64>,
    pub updated_at: Option<u64>,
}

/// Schema of the `.tact` files.
#[derive(Clone, Debug, PartialEq, Eq)]
pub struct TactFile {
    pub project: TactFileProject,
}

/// A `.tact` pattern of a haptic definition, for one position.
#[derive(Clone, Debug, PartialEq, Eq)]
pub struct HapticDefinitionTactFilePattern {
    pub position: String,
    pub tact_file: TactFileProject,
}

/// Whether rotation can be applied to effects on the given position: only the vest halves
/// and the head go around the body.
pub open spec fn spec_is_rotation_applicable(position: DevicePosition) -> bool {
    position == DevicePosition::VestFront || position == DevicePosition::VestBack || position
        == DevicePosition::Head
}

impl TactFileProject {
    /// Whether rotation can be applied to effects on the given position.
    pub fn is_rotation_applicable(position: &DevicePosition) -> (r: bool)
        ensures
            r == spec_is_rotation_applicable(*position),
    {
        match position {
            DevicePosition::VestFront | DevicePosition::VestBack | DevicePosition::Head => true,
            _ => false,
        }
    }
}

} // verus!
