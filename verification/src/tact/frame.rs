//! Points that haptic devices play: single motors (dots) and positions on a surface (paths).
use vstd::prelude::*;
use crate::tact::Float64;

verus! {

/// The highest intensity of a dot.
pub const DOT_MAX_INTENSITY: u32 = 100;

/// The highest intensity of a path point.
pub const PATH_MAX_INTENSITY: u8 = 100;

/// One motor of a device and how strongly it vibrates.
#[derive(Clone, Copy, Debug, PartialEq, Eq, Structural)]
pub struct DotPoint {
    /// On-device index of the dot.
    pub index: usize,
    /// Intensity of the dot. Range: `0..=100`.
    pub intensity: u32,
}

impl DotPoint {
    /// The intensity range holds.
    pub open spec fn wf(self) -> bool {
        self.intensity <= DOT_MAX_INTENSITY
    }

    /// A dot with the intensity capped at [`DOT_MAX_INTENSITY`].
    pub fn new(index: usize, intensity: u32) -> (r: Self)
        ensures
            r.index == index,
            r.intensity == if intensity <= DOT_MAX_INTENSITY { intensity } else { DOT_MAX_INTENSITY },
            r.wf(),
    {
        let intensity = if intensity <= DOT_MAX_INTENSITY { intensity } else { DOT_MAX_INTENSITY };
        DotPoint { index, intensity }
    }
}

/// A point on a device surface, spread over the nearest motors.
#[derive(Clone, Copy, Debug, PartialEq, Eq, Structural)]
pub struct PathPoint {
    /// X coordinate of the point. Range: `0.0..=1.0`
    pub x: Float64,
    /// Y coordinate of the point. Range: `0.0..=1.0`
    pub y: Float64,
    /// Intensity of the point. Range: `0..=100`
    pub intensity: u8,
    /// Number of motors to spread the point over.
    pub motor_count: usize,
}

/// The number of motors a path point is spread over unless told otherwise.
pub open spec fn spec_default_motor_count() -> usize {
    3
}

/// The number of motors a path point is spread over unless told otherwise.
pub fn default_motor_count() -> (r: usize)
    ensures
        r == spec_default_motor_count(),
{
    3
}

impl PathPoint {
    /// A path point with the intensity capped at [`PATH_MAX_INTENSITY`], spread over the
    /// default number of motors.
    pub fn new(x: Float64, y: Float64, intensity: u8) -> (r: Self)
        ensures
            r.x == x,
            r.y == y,
            r.intensity == if intensity <= PATH_MAX_INTENSITY { intensity } else { PATH_MAX_INTENSITY },
            r.motor_count == spec_default_motor_count(),
    {
        let intensity = if intensity <= PATH_MAX_INTENSITY { intensity } else { PATH_MAX_INTENSITY };
        PathPoint { x, y, intensity, motor_count: default_motor_count() }
    }

    /// The same point, spread over `motor_count` motors.
    pub fn with_motor_count(self, motor_count: usize) -> (r: Self)
        ensures
            r == (PathPoint { motor_count, ..self }),
    {
        PathPoint { motor_count, ..self }
    }
}

} // verus!
