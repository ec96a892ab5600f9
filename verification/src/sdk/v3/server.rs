//! Messages from the server in the `/v3/feedback` protocol.
use vstd::prelude::*;
use crate::text::str_eq;

verus! {

/// A message from the server.
#[derive(Clone, Debug, PartialEq, Eq)]
pub enum ServerMessage {
    ServerReady,
    ServerEventNameList(Vec<String>),
    ServerEventList(Vec<ServerEventListMessageItem>),
    ServerActiveEventNameList(Vec<String>),
    ServerActiveRequestIdList(Vec<u32>),
    ServerDevices(Vec<ServerDevicesMessageItem>),
}

/// The kind of a [`ServerMessage`], named like its variant in the `type` tag.
#[derive(Clone, Copy, Debug, PartialEq, Eq, Structural, Hash)]
pub enum ServerMessageType {
    ServerReady,
    ServerEventNameList,
    ServerEventList,
    ServerActiveEventNameList,
    ServerActiveRequestIdList,
    ServerDevices,
}

/// The kind whose tag is `name`, if any.
pub open spec fn spec_server_type_from_name(name: Seq<char>) -> Option<ServerMessageType> {
    if name == "ServerReady"@ { Some(ServerMessageType::ServerReady) }
    else if name == "ServerEventNameList"@ { Some(ServerMessageType::ServerEventNameList) }
    else if name == "ServerEventList"@ { Some(ServerMessageType::ServerEventList) }
    else if name == "ServerActiveEventNameList"@ { Some(ServerMessageType::ServerActiveEventNameList) }
    else if name == "ServerActiveRequestIdList"@ { Some(ServerMessageType::ServerActiveRequestIdList) }
    else if name == "ServerDevices"@ { Some(ServerMessageType::ServerDevices) }
    else { None }
}

impl ServerMessageType {
    /// The kind whose tag is `name`; `None` for an unknown tag.
    pub fn from_name(name: &str) -> (r: Option<ServerMessageType>)
        ensures
            r == spec_server_type_from_name(name@),
    {
        if str_eq(name, "ServerReady") { Some(ServerMessageType::ServerReady) }
        else if str_eq(name, "ServerEventNameList") { Some(ServerMessageType::ServerEventNameList) }
        else if str_eq(name, "ServerEventList") { Some(ServerMessageType::ServerEventList) }
        else if str_eq(name, "ServerActiveEventNameList") { Some(ServerMessageType::ServerActiveEventNameList) }
        else if str_eq(name, "ServerActiveRequestIdList") { Some(ServerMessageType::ServerActiveRequestIdList) }
        else if str_eq(name, "ServerDevices") { Some(ServerMessageType::ServerDevices) }
        else { None }
    }

    /// Whether messages of this kind carry a `message` payload.
    pub fn has_payload(&self) -> (r: bool)
        ensures
            r == (*self != ServerMessageType::ServerReady),
    {
        match self {
            ServerMessageType::ServerReady => false,
            _ => true,
        }
    }
}

/// One event the server knows, with its duration.
#[derive(Clone, Debug, PartialEq, Eq)]
pub struct ServerEventListMessageItem {
    pub event_name: String,
    pub event_time: u32,
}

/// One device the server knows.
#[derive(Clone, Debug, PartialEq, Eq)]
pub struct ServerDevicesMessageItem {
    pub position: u32,
    pub device_name: String,
    pub address: String,
    pub connected: bool,
    pub paired: bool,
    /// Battery level (0-100)
    pub battery: u8,
    pub audio_jack_in: bool,
    pub vsm: u32,
}

} // verus!
