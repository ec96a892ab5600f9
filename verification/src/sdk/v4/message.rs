//! The encrypted envelope as a tagged union: the handshake keys and the encrypted data.
use vstd::prelude::*;
use crate::text::str_eq;

verus! {

/// The kind of an [`SdkEncryptedMessage`].
#[derive(Clone, Copy, Debug, PartialEq, Eq, Structural, Hash)]
pub enum SdkEncryptedMessageType {
    ServerKey,
    SdkClientKey,
    SdkData,
}

/// The kind named `name`, if any.
pub open spec fn spec_type_from_name(name: Seq<char>) -> Option<SdkEncryptedMessageType> {
    if name == "ServerKey"@ {
        Some(SdkEncryptedMessageType::ServerKey)
    } else if name == "SdkClientKey"@ {
        Some(SdkEncryptedMessageType::SdkClientKey)
    } else if name == "SdkData"@ {
        Some(SdkEncryptedMessageType::SdkData)
    } else {
        None
    }
}

impl SdkEncryptedMessageType {
    /// The kind named `name` (the variant's name); `None` for any other text.
    pub fn from_name(name: &str) -> (r: Option<SdkEncryptedMessageType>)
        ensures
            r == spec_type_from_name(name@),
    {
        if str_eq(name, "ServerKey") {
            Some(SdkEncryptedMessageType::ServerKey)
        } else if str_eq(name, "SdkClientKey") {
            Some(SdkEncryptedMessageType::SdkClientKey)
        } else if str_eq(name, "SdkData") {
            Some(SdkEncryptedMessageType::SdkData)
        } else {
            None
        }
    }
}

/// A message of the encryption layer.
#[derive(Clone, Debug, PartialEq, Eq)]
pub enum SdkEncryptedMessage {
    /// Sent by the server to start the handshake; the key is usually a base64-encoded RSA
    /// 2048 public key (SPKI).
    ServerKey { key: String },
    /// Sent by the client to finish the handshake; the key is the PKCS#1 v1.5-encrypted
    /// AES-GCM key, base64-encoded.
    SdkClientKey { key: String },
    /// Data from the client, encrypted with the AES-GCM key and base64-encoded.
    SdkData { data: String },
}

pub open spec fn spec_message_type(m: SdkEncryptedMessage) -> SdkEncryptedMessageType {
    match m {
        SdkEncryptedMessage::ServerKey { .. } => SdkEncryptedMessageType::ServerKey,
        SdkEncryptedMessage::SdkClientKey { .. } => SdkEncryptedMessageType::SdkClientKey,
        SdkEncryptedMessage::SdkData { .. } => SdkEncryptedMessageType::SdkData,
    }
}

impl SdkEncryptedMessage {
    pub fn server_key(key: String) -> (r: Self)
        ensures
            r == (SdkEncryptedMessage::ServerKey { key }),
    {
        SdkEncryptedMessage::ServerKey { key }
    }

    pub fn sdk_client_key(key: String) -> (r: Self)
        ensures
            r == (SdkEncryptedMessage::SdkClientKey { key }),
    {
        SdkEncryptedMessage::SdkClientKey { key }
    }

    pub fn sdk_data(data: String) -> (r: Self)
        ensures
            r == (SdkEncryptedMessage::SdkData { data }),
    {
        SdkEncryptedMessage::SdkData { data }
    }

    /// The kind of this message.
    pub fn message_type(&self) -> (r: SdkEncryptedMessageType)
        ensures
            r == spec_message_type(*self),
    {
        match self {
            SdkEncryptedMessage::ServerKey { .. } => SdkEncryptedMessageType::ServerKey,
            SdkEncryptedMessage::SdkClientKey { .. } => SdkEncryptedMessageType::SdkClientKey,
            SdkEncryptedMessage::SdkData { .. } => SdkEncryptedMessageType::SdkData,
        }
    }

    /// The key of a handshake message; `None` for data.
    pub fn key(&self) -> (r: Option<&str>)
        ensures
            match *self {
                SdkEncryptedMessage::ServerKey { key } => r matches Some(k) && k@ == key@,
                SdkEncryptedMessage::SdkClientKey { key } => r matches Some(k) && k@ == key@,
                SdkEncryptedMessage::SdkData { .. } => r is None,
            },
    {
        match self {
            SdkEncryptedMessage::ServerKey { key } => Some(key.as_str()),
            SdkEncryptedMessage::SdkClientKey { key } => Some(key.as_str()),
            SdkEncryptedMessage::SdkData { .. } => None,
        }
    }

    /// The data of a data message; `None` for the handshake messages.
    pub fn data(&self) -> (r: Option<&str>)
        ensures
            match *self {
                SdkEncryptedMessage::SdkData { data } => r matches Some(d) && d@ == data@,
                _ => r is None,
            },
    {
        match self {
            SdkEncryptedMessage::SdkData { data } => Some(data.as_str()),
            _ => None,
        }
    }
}

/// Every message has exactly one of a key and data: a key when it is a handshake message.
pub proof fn lemma_key_or_data(m: SdkEncryptedMessage)
    ensures
        (spec_message_type(m) == SdkEncryptedMessageType::SdkData) == (m is SdkData),
        (m is SdkData) != (m is ServerKey || m is SdkClientKey),
{
}

} // verus!
