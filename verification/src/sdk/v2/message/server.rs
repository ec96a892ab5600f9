//! Messages from the server.
use vstd::prelude::*;

verus! {

/// A server message.
#[derive(Clone, Debug, PartialEq, Eq)]
pub enum ServerMessage {
    ConnectedDeviceCount(u32),
    ActiveKeys(Vec<String>),
    RegisteredKeys(Vec<String>),
    ConnectedPositions,
    ConnectionPositions,
    Status(ServerStatusMessage),
}

/// The current motor intensities of each device.
#[derive(Clone, Copy, Debug, PartialEq, Eq)]
pub struct ServerStatusMessage {
    pub vest_front: [u32; 20],
    pub vest_back: [u32; 20],
    pub forearm_left: [u32; 6],
    pub forearm_right: [u32; 6],
    pub head: [u32; 6],
}

} // verus!
