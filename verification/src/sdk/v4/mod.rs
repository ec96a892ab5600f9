//! The `/v4/feedback` protocol: the `/v3/feedback` messages wrapped in an outer encryption
//! layer. A public key is only used to exchange the client's AES-GCM key; every later
//! message is encrypted with that key.
use vstd::prelude::*;

pub mod data;
pub mod message;

verus! {

/// An encrypted message between SDK and server, with its type as text.
#[derive(Clone, Debug, PartialEq, Eq)]
pub struct SdkEncryptedMessage {
    /// The message type (named `Type` in JSON).
    pub message_type: String,
    pub key: Option<String>,
    pub data: Option<String>,
}

impl SdkEncryptedMessage {
    pub fn new(message_type: String, key: Option<String>, data: Option<String>) -> (r: Self)
        ensures
            r.message_type == message_type,
            r.key == key,
            r.data == data,
    {
        SdkEncryptedMessage { message_type, key, data }
    }
}

} // verus!
