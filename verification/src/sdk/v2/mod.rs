//! The legacy `/v2/feedbacks` protocol: clients register `.tact` projects under keys and
//! submit keys or frames to play; the server reports its status.
use vstd::prelude::*;
use crate::tact::Float32;

pub mod client;
pub mod message;
pub mod server;

verus! {

/// A registered project as the client sends it: layout and tracks stay raw JSON.
#[derive(Debug)]
pub struct Project {
    pub id: Option<String>,
    pub name: Option<String>,
    pub description: Option<String>,
    pub layout: serde_json::Value,
    pub tracks: serde_json::Value,
    pub created_at: Option<u64>,
    pub updated_at: Option<u64>,
}

/// A motor and its intensity.
#[derive(Clone, Copy, Debug, PartialEq, Eq, Structural)]
pub struct HapticDotPoint {
    pub index: u32,
    pub intensity: u32,
}

/// A point on a device surface.
#[derive(Clone, Copy, Debug, PartialEq, Eq, Structural)]
pub struct HapticPathPoint {
    pub x: Float32,
    pub y: Float32,
    pub intensity: u32,
    pub motor_count: u32,
}

} // verus!
