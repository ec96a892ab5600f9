//! The server's status report.
use vstd::prelude::*;
use crate::device::DevicePosition;

verus! {

/// What the server reports after every client message.
#[derive(Clone, Debug, PartialEq, Eq)]
pub struct ServerMessage {
    pub status: ServerStatus,
    pub active_keys: Vec<String>,
    pub registered_keys: Vec<String>,
    pub connected_positions: Vec<DevicePosition>,
}

/// The current motor intensities of each device.
#[derive(Clone, Copy, Debug, PartialEq, Eq)]
pub struct ServerStatus {
    pub vest_front: [u32; 20],
    pub vest_back: [u32; 20],
    pub forearm_left: [u32; 6],
    pub forearm_right: [u32; 6],
    pub head: [u32; 6],
}

} // verus!
