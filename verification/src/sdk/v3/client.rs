//! Messages from the SDK client in the `/v3/feedback` protocol.
use vstd::prelude::*;
use crate::definitions::{HapticDefinitionsMessage, SdkApiResponseV3};
use crate::device::DevicePosition;
use crate::tact::Float64;
use crate::tact::frame::PathPoint;
use crate::text::str_eq;

verus! {

/// A message from the SDK client.
#[derive(Clone, Debug, PartialEq, Eq)]
pub enum SdkMessage {
    SdkRequestAuthInit(SdkRequestAuthInitMessage),
    SdkRequestAuth(SdkRequestAuthMessage),
    SdkPlayWithStartTime(SdkPlayWithStartTimeMessage),
    SdkPlayDotMode(SdkPlayDotModeMessage),
    SdkPlayPathMode(SdkPlayPathModeMessage),
    SdkPingAll,
    SdkStopAll,
    SdkStopByEventId(String),
}

/// The kind of an [`SdkMessage`], named like its variant in the `type` tag.
#[derive(Clone, Copy, Debug, PartialEq, Eq, Structural, Hash)]
pub enum SdkMessageType {
    SdkRequestAuthInit,
    SdkRequestAuth,
    SdkPlayWithStartTime,
    SdkPlayDotMode,
    SdkPlayPathMode,
    SdkPingAll,
    SdkStopAll,
    SdkStopByEventId,
}

/// The kind whose tag is `name`, if any.
pub open spec fn spec_message_type_from_name(name: Seq<char>) -> Option<SdkMessageType> {
    if name == "SdkRequestAuthInit"@ { Some(SdkMessageType::SdkRequestAuthInit) }
    else if name == "SdkRequestAuth"@ { Some(SdkMessageType::SdkRequestAuth) }
    else if name == "SdkPlayWithStartTime"@ { Some(SdkMessageType::SdkPlayWithStartTime) }
    else if name == "SdkPlayDotMode"@ { Some(SdkMessageType::SdkPlayDotMode) }
    else if name == "SdkPlayPathMode"@ { Some(SdkMessageType::SdkPlayPathMode) }
    else if name == "SdkPingAll"@ { Some(SdkMessageType::SdkPingAll) }
    else if name == "SdkStopAll"@ { Some(SdkMessageType::SdkStopAll) }
    else if name == "SdkStopByEventId"@ { Some(SdkMessageType::SdkStopByEventId) }
    else { None }
}

pub open spec fn spec_message_type(m: SdkMessage) -> SdkMessageType {
    match m {
        SdkMessage::SdkRequestAuthInit(_) => SdkMessageType::SdkRequestAuthInit,
        SdkMessage::SdkRequestAuth(_) => SdkMessageType::SdkRequestAuth,
        SdkMessage::SdkPlayWithStartTime(_) => SdkMessageType::SdkPlayWithStartTime,
        SdkMessage::SdkPlayDotMode(_) => SdkMessageType::SdkPlayDotMode,
        SdkMessage::SdkPlayPathMode(_) => SdkMessageType::SdkPlayPathMode,
        SdkMessage::SdkPingAll => SdkMessageType::SdkPingAll,
        SdkMessage::SdkStopAll => SdkMessageType::SdkStopAll,
        SdkMessage::SdkStopByEventId(_) => SdkMessageType::SdkStopByEventId,
    }
}

impl SdkMessageType {
    /// The kind whose tag is `name`; `None` for an unknown tag.
    pub fn from_name(name: &str) -> (r: Option<SdkMessageType>)
        ensures
            r == spec_message_type_from_name(name@),
    {
        if str_eq(name, "SdkRequestAuthInit") { Some(SdkMessageType::SdkRequestAuthInit) }
        else if str_eq(name, "SdkRequestAuth") { Some(SdkMessageType::SdkRequestAuth) }
        else if str_eq(name, "SdkPlayWithStartTime") { Some(SdkMessageType::SdkPlayWithStartTime) }
        else if str_eq(name, "SdkPlayDotMode") { Some(SdkMessageType::SdkPlayDotMode) }
        else if str_eq(name, "SdkPlayPathMode") { Some(SdkMessageType::SdkPlayPathMode) }
        else if str_eq(name, "SdkPingAll") { Some(SdkMessageType::SdkPingAll) }
        else if str_eq(name, "SdkStopAll") { Some(SdkMessageType::SdkStopAll) }
        else if str_eq(name, "SdkStopByEventId") { Some(SdkMessageType::SdkStopByEventId) }
        else { None }
    }

    /// Whether messages of this kind carry a `message` payload; the others ignore it.
    pub fn has_payload(&self) -> (r: bool)
        ensures
            r == !(*self == SdkMessageType::SdkPingAll || *self == SdkMessageType::SdkStopAll),
    {
        match self {
            SdkMessageType::SdkPingAll | SdkMessageType::SdkStopAll => false,
            _ => true,
        }
    }
}

impl SdkMessage {
    /// The kind of this message.
    pub fn message_type(&self) -> (r: SdkMessageType)
        ensures
            r == spec_message_type(*self),
    {
        match self {
            SdkMessage::SdkRequestAuthInit(_) => SdkMessageType::SdkRequestAuthInit,
            SdkMessage::SdkRequestAuth(_) => SdkMessageType::SdkRequestAuth,
            SdkMessage::SdkPlayWithStartTime(_) => SdkMessageType::SdkPlayWithStartTime,
            SdkMessage::SdkPlayDotMode(_) => SdkMessageType::SdkPlayDotMode,
            SdkMessage::SdkPlayPathMode(_) => SdkMessageType::SdkPlayPathMode,
            SdkMessage::SdkPingAll => SdkMessageType::SdkPingAll,
            SdkMessage::SdkStopAll => SdkMessageType::SdkStopAll,
            SdkMessage::SdkStopByEventId(_) => SdkMessageType::SdkStopByEventId,
        }
    }
}

/// Authentication together with the workspace's haptic definitions.
#[derive(Clone, Debug, PartialEq, Eq)]
pub struct SdkRequestAuthInitMessage {
    pub authentication: SdkRequestAuthMessage,
    pub haptic: SdkApiResponseV3<HapticDefinitionsMessage>,
}

/// The client's authentication request.
#[derive(Clone, Debug, PartialEq, Eq)]
pub struct SdkRequestAuthMessage {
    pub cipher: String,
    pub application_id: String,
    pub nonce_hash_value: String,
    pub application_id_hash_value: String,
    pub sdk_api_key: String,
}

impl SdkRequestAuthMessage {
    pub fn new(
        cipher: String,
        application_id: String,
        nonce_hash_value: String,
        application_id_hash_value: String,
        sdk_api_key: String,
    ) -> (r: Self)
        ensures
            r.cipher == cipher,
            r.application_id == application_id,
            r.nonce_hash_value == nonce_hash_value,
            r.application_id_hash_value == application_id_hash_value,
            r.sdk_api_key == sdk_api_key,
    {
        SdkRequestAuthMessage {
            cipher,
            application_id,
            nonce_hash_value,
            application_id_hash_value,
            sdk_api_key,
        }
    }
}

/// The bit pattern of the double `1.0`.
pub const ONE_BITS: u64 = 0x3FF0_0000_0000_0000;

/// A request to play an event, scaled and rotated.
#[derive(Clone, Debug, PartialEq, Eq)]
pub struct SdkPlayWithStartTimeMessage {
    pub event_name: String,
    pub request_id: u32,
    pub start_millis: u64,
    /// Intensity scale factor: 0.0-1.0
    pub intensity: Float64,
    /// Duration scale factor: 0.0-1.0
    pub duration: Float64,
    pub offset_angle_x: Float64,
    pub offset_y: Float64,
}

impl SdkPlayWithStartTimeMessage {
    pub fn new(
        event_name: String,
        request_id: u32,
        start_millis: u64,
        intensity: Float64,
        duration: Float64,
        offset_angle_x: Float64,
        offset_y: Float64,
    ) -> (r: Self)
        ensures
            r.event_name == event_name,
            r.request_id == request_id,
            r.start_millis == start_millis,
            r.intensity == intensity,
            r.duration == duration,
            r.offset_angle_x == offset_angle_x,
            r.offset_y == offset_y,
    {
        SdkPlayWithStartTimeMessage {
            event_name,
            request_id,
            start_millis,
            intensity,
            duration,
            offset_angle_x,
            offset_y,
        }
    }

    /// The start time when a request gives none: right away.
    pub fn default_start_millis() -> (r: u64)
        ensures
            r == 0,
    {
        0
    }

    /// The intensity scale when a request gives none: `1.0`.
    pub fn default_intensity() -> (r: Float64)
        ensures
            r.bits == ONE_BITS,
    {
        Float64 { bits: ONE_BITS }
    }

    /// The duration scale when a request gives none: `1.0`.
    pub fn default_duration() -> (r: Float64)
        ensures
            r.bits == ONE_BITS,
    {
        Float64 { bits: ONE_BITS }
    }

    /// The horizontal rotation when a request gives none: `0.0`.
    pub fn default_offset_angle_x() -> (r: Float64)
        ensures
            r.bits == 0,
    {
        Float64 { bits: 0 }
    }

    /// The vertical offset when a request gives none: `0.0`.
    pub fn default_offset_y() -> (r: Float64)
        ensures
            r.bits == 0,
    {
        Float64 { bits: 0 }
    }
}

/// A request to drive the motors of one device directly: one intensity (0-100) per motor
/// index. On the vest the first 20 motors are on the front and the last 20 on the back.
#[derive(Clone, Debug, PartialEq, Eq)]
pub struct SdkPlayDotModeMessage {
    pub request_id: u32,
    pub position: DevicePosition,
    pub duration_millis: u64,
    pub motor_values: Vec<u8>,
}

/// A request to play path points on one device.
#[derive(Clone, Debug, PartialEq, Eq)]
pub struct SdkPlayPathModeMessage {
    pub request_id: u32,
    pub position: DevicePosition,
    pub duration_millis: u64,
    pub path_points: Vec<PathPoint>,
}

} // verus!
