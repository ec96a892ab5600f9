//! The `/v3/feedback` protocol: JSON messages tagged by `type`, whose `message` is either a
//! JSON object or that object encoded as a string.
use vstd::prelude::*;
use crate::tact::Float64;

pub mod client;
pub mod server;

verus! {

/// A message from the SDK client.
#[derive(Clone, Debug, PartialEq, Eq)]
pub enum SdkMessage {
    SdkRequestAuth(SdkRequestAuthMessage),
    SdkPlayWithStartTime(SdkPlayWithStartTimeMessage),
}

/// The client's authentication request.
#[derive(Clone, Debug, PartialEq, Eq)]
pub struct SdkRequestAuthMessage {
    pub cipher: String,
    pub application_id: String,
    pub nonce_hash_value: String,
    pub application_id_hash_value: String,
    pub sdk_api_key: String,
}

/// A request to play an event.
#[derive(Clone, Debug, PartialEq, Eq)]
pub struct SdkPlayWithStartTimeMessage {
    pub event_name: String,
    pub request_id: u32,
    pub start_millis: u64,
    pub intensity: Float64,
    pub duration: Float64,
    pub offset_angle_x: Float64,
    pub offset_y: Float64,
}

} // verus!
