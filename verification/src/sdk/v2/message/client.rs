//! Messages from the client.
use vstd::prelude::*;
use crate::tact::Float32;

verus! {

/// A client message: registrations or submissions.
#[derive(Debug)]
pub enum Message {
    Register(Vec<RegisterMessage>),
    Submit(Vec<SubmitMessage>),
}

/// A project registered under a key (numeric keys are kept as their decimal text).
#[derive(Debug)]
pub struct RegisterMessage {
    pub key: String,
    pub project: Project,
}

/// A registered project: layout and tracks stay raw JSON.
#[derive(Debug)]
pub struct Project {
    pub id: String,
    pub name: String,
    pub description: Option<String>,
    pub layout: serde_json::Value,
    pub tracks: serde_json::Value,
    pub created_at: Option<u64>,
    pub updated_at: Option<u64>,
}

/// Something to play or stop.
#[derive(Debug)]
pub enum SubmitMessage {
    TurnOffAll,
    TurnOff { key: String },
    Frame { key: String, frame: serde_json::Value },
}

/// What the server can answer.
#[derive(Clone, Copy, Debug, PartialEq, Eq, Structural)]
pub enum ResponseMessage {
    ConnectedDeviceCount(u32),
    ActiveKeys,
    RegisteredKeys,
    ConnectedPositions,
    ConnectionPositions,
    Status,
}

/// A motor and its intensity.
#[derive(Clone, Copy, Debug, PartialEq, Eq, Structural)]
pub struct HapticDotPoint {
    pub index: u32,
    pub intensity: u32,
}

/// A point on a device surface.
#[derive(Clone, Copy, Debug, PartialEq, Eq, Structural)]
pub struct HapticPathPoint {
    pub x: Float32,
    pub y: Float32,
    pub intensity: u32,
    pub motor_count: u32,
}

} // verus!
