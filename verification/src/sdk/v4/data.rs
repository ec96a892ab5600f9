//! The encrypted envelope with a typed message type, and the data inside it.
use vstd::prelude::*;

verus! {

/// What an encrypted message carries.
#[derive(Clone, Copy, Debug, PartialEq, Eq, Structural, Hash)]
pub enum SdkEncryptedMessageType {
    ServerKey,
    SdkClientKey,
    SdkData,
}

pub open spec fn encrypted_type_name(t: SdkEncryptedMessageType) -> Seq<char> {
    match t {
        SdkEncryptedMessageType::ServerKey => "ServerKey"@,
        SdkEncryptedMessageType::SdkClientKey => "SdkClientKey"@,
        SdkEncryptedMessageType::SdkData => "SdkData"@,
    }
}

impl SdkEncryptedMessageType {
    /// The name of the type, as it is written in messages.
    pub fn name(&self) -> (r: &'static str)
        ensures
            r@ == encrypted_type_name(*self),
    {
        match self {
            SdkEncryptedMessageType::ServerKey => "ServerKey",
            SdkEncryptedMessageType::SdkClientKey => "SdkClientKey",
            SdkEncryptedMessageType::SdkData => "SdkData",
        }
    }
}

/// Encrypted message between SDK and server (see [`SdkMessage`] for the unencrypted data).
#[derive(Clone, Debug, PartialEq, Eq)]
pub struct SdkEncryptedMessage {
    pub message_type: SdkEncryptedMessageType,
    pub key: Option<String>,
    pub data: Option<String>,
}

impl SdkEncryptedMessage {
    pub fn new(message_type: SdkEncryptedMessageType, key: Option<String>, data: Option<String>) -> (r: Self)
        ensures
            r.message_type == message_type,
            r.key == key,
            r.data == data,
    {
        SdkEncryptedMessage { message_type, key, data }
    }
}

/// Unencrypted message inside an [`SdkEncryptedMessage`].
pub struct SdkMessage {
    pub message_type: SdkEncryptedMessageType,
    pub key: Option<String>,
    pub data: Option<SdkMessageData>,
}

/// The data of an unencrypted message: one item or several.
pub enum SdkMessageData {
    Object(SdkData),
    Array(Vec<SdkData>),
}

/// One item of SDK data.
#[derive(Clone, Debug, PartialEq, Eq)]
pub struct SdkData {
    pub data_type: SdkDataType,
    /// Depends on the type: none for `ServerReady`, empty for `SdkPingAll`, JSON for
    /// `SdkPlayDotMode` and `SdkPlayWithStartTime`, an event id for `SdkStopByEventId`.
    pub data: Option<String>,
}

impl SdkData {
    pub fn new(data_type: SdkDataType, data: Option<String>) -> (r: Self)
        ensures
            r.data_type == data_type,
            r.data == data,
    {
        SdkData { data_type, data }
    }
}

/// The kinds of SDK data.
#[derive(Clone, Copy, Debug, PartialEq, Eq, Structural, Hash)]
pub enum SdkDataType {
    ServerReady,
    ServerDevices,
    ServerEventNameList,
    ServerEventList,
    SdkPingAll,
    SdkPlayDotMode,
    SdkPlayWithStartTime,
    SdkPlayPathMode,
    SdkStopByEventId,
}

pub open spec fn data_type_name(t: SdkDataType) -> Seq<char> {
    match t {
        SdkDataType::ServerReady => "ServerReady"@,
        SdkDataType::ServerDevices => "ServerDevices"@,
        SdkDataType::ServerEventNameList => "ServerEventNameList"@,
        SdkDataType::ServerEventList => "ServerEventList"@,
        SdkDataType::SdkPingAll => "SdkPingAll"@,
        SdkDataType::SdkPlayDotMode => "SdkPlayDotMode"@,
        SdkDataType::SdkPlayWithStartTime => "SdkPlayWithStartTime"@,
        SdkDataType::SdkPlayPathMode => "SdkPlayPathMode"@,
        SdkDataType::SdkStopByEventId => "SdkStopByEventId"@,
    }
}

impl SdkDataType {
    /// The name of the kind, as it is written in messages.
    pub fn name(&self) -> (r: &'static str)
        ensures
            r@ == data_type_name(*self),
    {
        match self {
            SdkDataType::ServerReady => "ServerReady",
            SdkDataType::ServerDevices => "ServerDevices",
            SdkDataType::ServerEventNameList => "ServerEventNameList",
            SdkDataType::ServerEventList => "ServerEventList",
            SdkDataType::SdkPingAll => "SdkPingAll",
            SdkDataType::SdkPlayDotMode => "SdkPlayDotMode",
            SdkDataType::SdkPlayWithStartTime => "SdkPlayWithStartTime",
            SdkDataType::SdkPlayPathMode => "SdkPlayPathMode",
            SdkDataType::SdkStopByEventId => "SdkStopByEventId",
        }
    }
}

} // verus!
