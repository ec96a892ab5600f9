//! Apple Continuity advertisement messages: the message type byte, a length byte, and the
//! message. Only Proximity Pairing messages carry decoded content.
use vstd::prelude::*;

verus! {

/// Known device models of a Proximity Pairing message, by their 16-bit little-endian
/// model number.
#[derive(Clone, Copy, Debug, PartialEq, Eq, Structural, Hash)]
pub enum ProximityPairingDeviceModel {
    Unknown,
    AirPods,
    AirPods2,
    AirPods3,
    AirPodsPro,
    AirPodsPro2,
    AirPodsMax,
    PowerBeats3,
    BeatsX,
    BeatsSolo3,
    BeatsFit3,
}

/// The model number of each model.
pub open spec fn model_repr(m: ProximityPairingDeviceModel) -> u16 {
    match m {
        ProximityPairingDeviceModel::Unknown => 0,
        ProximityPairingDeviceModel::AirPods => 0x2002,
        ProximityPairingDeviceModel::AirPods2 => 0x200F,
        ProximityPairingDeviceModel::AirPods3 => 0x2013,
        ProximityPairingDeviceModel::AirPodsPro => 0x200E,
        ProximityPairingDeviceModel::AirPodsPro2 => 0x2014,
        ProximityPairingDeviceModel::AirPodsMax => 0x200A,
        ProximityPairingDeviceModel::PowerBeats3 => 0x2003,
        ProximityPairingDeviceModel::BeatsX => 0x2005,
        ProximityPairingDeviceModel::BeatsSolo3 => 0x2006,
        ProximityPairingDeviceModel::BeatsFit3 => 0x2012,
    }
}

/// The model with model number `v`, if any.
pub open spec fn model_from_repr(v: u16) -> Option<ProximityPairingDeviceModel> {
    if v == 0 { Some(ProximityPairingDeviceModel::Unknown) }
    else if v == 0x2002 { Some(ProximityPairingDeviceModel::AirPods) }
    else if v == 0x200F { Some(ProximityPairingDeviceModel::AirPods2) }
    else if v == 0x2013 { Some(ProximityPairingDeviceModel::AirPods3) }
    else if v == 0x200E { Some(ProximityPairingDeviceModel::AirPodsPro) }
    else if v == 0x2014 { Some(ProximityPairingDeviceModel::AirPodsPro2) }
    else if v == 0x200A { Some(ProximityPairingDeviceModel::AirPodsMax) }
    else if v == 0x2003 { Some(ProximityPairingDeviceModel::PowerBeats3) }
    else if v == 0x2005 { Some(ProximityPairingDeviceModel::BeatsX) }
    else if v == 0x2006 { Some(ProximityPairingDeviceModel::BeatsSolo3) }
    else if v == 0x2012 { Some(ProximityPairingDeviceModel::BeatsFit3) }
    else { None }
}

/// The display name of each model.
pub open spec fn model_name(m: ProximityPairingDeviceModel) -> Seq<char> {
    match m {
        ProximityPairingDeviceModel::Unknown => "Unknown"@,
        ProximityPairingDeviceModel::AirPods => "AirPods"@,
        ProximityPairingDeviceModel::AirPods2 => "AirPods 2"@,
        ProximityPairingDeviceModel::AirPods3 => "AirPods 3"@,
        ProximityPairingDeviceModel::AirPodsPro => "AirPods Pro"@,
        ProximityPairingDeviceModel::AirPodsPro2 => "AirPods Pro 2"@,
        ProximityPairingDeviceModel::AirPodsMax => "AirPods Max"@,
        ProximityPairingDeviceModel::PowerBeats3 => "PowerBeats 3"@,
        ProximityPairingDeviceModel::BeatsX => "Beats X"@,
        ProximityPairingDeviceModel::BeatsSolo3 => "Beats Solo 3"@,
        ProximityPairingDeviceModel::BeatsFit3 => "Beats Fit 3"@,
    }
}

impl ProximityPairingDeviceModel {
    /// The model number of this model.
    pub fn repr(&self) -> (r: u16)
        ensures
            r == model_repr(*self),
    {
        match self {
            ProximityPairingDeviceModel::Unknown => 0,
            ProximityPairingDeviceModel::AirPods => 0x2002,
            ProximityPairingDeviceModel::AirPods2 => 0x200F,
            ProximityPairingDeviceModel::AirPods3 => 0x2013,
            ProximityPairingDeviceModel::AirPodsPro => 0x200E,
            ProximityPairingDeviceModel::AirPodsPro2 => 0x2014,
            ProximityPairingDeviceModel::AirPodsMax => 0x200A,
            ProximityPairingDeviceModel::PowerBeats3 => 0x2003,
            ProximityPairingDeviceModel::BeatsX => 0x2005,
            ProximityPairingDeviceModel::BeatsSolo3 => 0x2006,
            ProximityPairingDeviceModel::BeatsFit3 => 0x2012,
        }
    }

    /// The model with model number `v`; `None` for an unknown number.
    pub fn from_repr(v: u16) -> (r: Option<ProximityPairingDeviceModel>)
        ensures
            r == model_from_repr(v),
    {
        match v {
            0 => Some(ProximityPairingDeviceModel::Unknown),
            0x2002 => Some(ProximityPairingDeviceModel::AirPods),
            0x200F => Some(ProximityPairingDeviceModel::AirPods2),
            0x2013 => Some(ProximityPairingDeviceModel::AirPods3),
            0x200E => Some(ProximityPairingDeviceModel::AirPodsPro),
            0x2014 => Some(ProximityPairingDeviceModel::AirPodsPro2),
            0x200A => Some(ProximityPairingDeviceModel::AirPodsMax),
            0x2003 => Some(ProximityPairingDeviceModel::PowerBeats3),
            0x2005 => Some(ProximityPairingDeviceModel::BeatsX),
            0x2006 => Some(ProximityPairingDeviceModel::BeatsSolo3),
            0x2012 => Some(ProximityPairingDeviceModel::BeatsFit3),
            _ => None,
        }
    }

    /// The display name of this model, such as `"AirPods Pro 2"`.
    pub fn name(&self) -> (r: &'static str)
        ensures
            r@ == model_name(*self),
    {
        match self {
            ProximityPairingDeviceModel::Unknown => "Unknown",
            ProximityPairingDeviceModel::AirPods => "AirPods",
            ProximityPairingDeviceModel::AirPods2 => "AirPods 2",
            ProximityPairingDeviceModel::AirPods3 => "AirPods 3",
            ProximityPairingDeviceModel::AirPodsPro => "AirPods Pro",
            ProximityPairingDeviceModel::AirPodsPro2 => "AirPods Pro 2",
            ProximityPairingDeviceModel::AirPodsMax => "AirPods Max",
            ProximityPairingDeviceModel::PowerBeats3 => "PowerBeats 3",
            ProximityPairingDeviceModel::BeatsX => "Beats X",
            ProximityPairingDeviceModel::BeatsSolo3 => "Beats Solo 3",
            ProximityPairingDeviceModel::BeatsFit3 => "Beats Fit 3",
        }
    }
}

/// The decoded content of a Proximity Pairing message.
#[derive(Clone, Copy, Debug, PartialEq, Eq, Structural)]
pub struct ProximityPairing {
    pub device_model: ProximityPairingDeviceModel,
}

/// Why a Proximity Pairing message could not be decoded.
#[derive(Clone, Copy, Debug, PartialEq, Eq, Structural)]
pub enum ProximityPairingError {
    /// The type byte is not `0x07`.
    InvalidMessageType(u8),
    /// The length byte does not match the number of bytes after it.
    InvalidMessageLength(u8),
}

/// The type byte of each kind of Continuity message.
#[derive(Clone, Copy, Debug, PartialEq, Eq, Structural, Hash)]
pub enum ContinuityMessageDiscriminants {
    AirPrint,
    AirDrop,
    HomeKit,
    ProximityPairing,
    HeySiri,
    AirPlayTarget,
    AirPlaySource,
    MagicSwitch,
    Handoff,
    TetheringTarget,
    TetheringSource,
    NearbyAction,
    NearbyInfo,
    FindMy,
}

/// A Continuity message. Only Proximity Pairing messages are decoded further.
#[derive(Clone, Copy, Debug, PartialEq, Eq, Structural)]
pub enum ContinuityMessage {
    AirPrint,
    AirDrop,
    HomeKit,
    ProximityPairing(ProximityPairing),
    HeySiri,
    AirPlayTarget,
    AirPlaySource,
    MagicSwitch,
    Handoff,
    TetheringTarget,
    TetheringSource,
    NearbyAction,
    NearbyInfo,
    FindMy,
}

/// Why a Continuity message could not be decoded.
#[derive(Clone, Copy, Debug, PartialEq, Eq, Structural)]
pub enum ContinuityMessageError {
    /// The length byte (`declared`) differs from the number of bytes after it (`actual`).
    MessageLengthMismatch { declared: u8, actual: usize },
    /// No kind of message has this type byte.
    UnknownMessageType(u8),
    /// The Proximity Pairing message inside could not be decoded.
    ProximityPairing(ProximityPairingError),
}

/// The type byte of each kind of message.
pub open spec fn kind_repr(k: ContinuityMessageDiscriminants) -> u8 {
    match k {
        ContinuityMessageDiscriminants::AirPrint => 0x03,
        ContinuityMessageDiscriminants::AirDrop => 0x05,
        ContinuityMessageDiscriminants::HomeKit => 0x06,
        ContinuityMessageDiscriminants::ProximityPairing => 0x07,
        ContinuityMessageDiscriminants::HeySiri => 0x08,
        ContinuityMessageDiscriminants::AirPlayTarget => 0x09,
        ContinuityMessageDiscriminants::AirPlaySource => 0x0a,
        ContinuityMessageDiscriminants::MagicSwitch => 0x0b,
        ContinuityMessageDiscriminants::Handoff => 0x0c,
        ContinuityMessageDiscriminants::TetheringTarget => 0x0d,
        ContinuityMessageDiscriminants::TetheringSource => 0x0e,
        ContinuityMessageDiscriminants::NearbyAction => 0x0f,
        ContinuityMessageDiscriminants::NearbyInfo => 0x10,
        ContinuityMessageDiscriminants::FindMy => 0x12,
    }
}

/// The kind of message with type byte `v`, if any.
pub open spec fn kind_from_repr(v: u8) -> Option<ContinuityMessageDiscriminants> {
    if v == 0x03 { Some(ContinuityMessageDiscriminants::AirPrint) }
    else if v == 0x05 { Some(ContinuityMessageDiscriminants::AirDrop) }
    else if v == 0x06 { Some(ContinuityMessageDiscriminants::HomeKit) }
    else if v == 0x07 { Some(ContinuityMessageDiscriminants::ProximityPairing) }
    else if v == 0x08 { Some(ContinuityMessageDiscriminants::HeySiri) }
    else if v == 0x09 { Some(ContinuityMessageDiscriminants::AirPlayTarget) }
    else if v == 0x0a { Some(ContinuityMessageDiscriminants::AirPlaySource) }
    else if v == 0x0b { Some(ContinuityMessageDiscriminants::MagicSwitch) }
    else if v == 0x0c { Some(ContinuityMessageDiscriminants::Handoff) }
    else if v == 0x0d { Some(ContinuityMessageDiscriminants::TetheringTarget) }
    else if v == 0x0e { Some(ContinuityMessageDiscriminants::TetheringSource) }
    else if v == 0x0f { Some(ContinuityMessageDiscriminants::NearbyAction) }
    else if v == 0x10 { Some(ContinuityMessageDiscriminants::NearbyInfo) }
    else if v == 0x12 { Some(ContinuityMessageDiscriminants::FindMy) }
    else { None }
}

/// The kind of a message.
pub open spec fn message_kind(m: ContinuityMessage) -> ContinuityMessageDiscriminants {
    match m {
        ContinuityMessage::AirPrint => ContinuityMessageDiscriminants::AirPrint,
        ContinuityMessage::AirDrop => ContinuityMessageDiscriminants::AirDrop,
        ContinuityMessage::HomeKit => ContinuityMessageDiscriminants::HomeKit,
        ContinuityMessage::ProximityPairing(_) => ContinuityMessageDiscriminants::ProximityPairing,
        ContinuityMessage::HeySiri => ContinuityMessageDiscriminants::HeySiri,
        ContinuityMessage::AirPlayTarget => ContinuityMessageDiscriminants::AirPlayTarget,
        ContinuityMessage::AirPlaySource => ContinuityMessageDiscriminants::AirPlaySource,
        ContinuityMessage::MagicSwitch => ContinuityMessageDiscriminants::MagicSwitch,
        ContinuityMessage::Handoff => ContinuityMessageDiscriminants::Handoff,
        ContinuityMessage::TetheringTarget => ContinuityMessageDiscriminants::TetheringTarget,
        ContinuityMessage::TetheringSource => ContinuityMessageDiscriminants::TetheringSource,
        ContinuityMessage::NearbyAction => ContinuityMessageDiscriminants::NearbyAction,
        ContinuityMessage::NearbyInfo => ContinuityMessageDiscriminants::NearbyInfo,
        ContinuityMessage::FindMy => ContinuityMessageDiscriminants::FindMy,
    }
}

impl ContinuityMessageDiscriminants {
    /// The type byte of this kind of message.
    pub fn repr(&self) -> (r: u8)
        ensures
            r == kind_repr(*self),
    {
        match self {
            ContinuityMessageDiscriminants::AirPrint => 0x03,
            ContinuityMessageDiscriminants::AirDrop => 0x05,
            ContinuityMessageDiscriminants::HomeKit => 0x06,
            ContinuityMessageDiscriminants::ProximityPairing => 0x07,
            ContinuityMessageDiscriminants::HeySiri => 0x08,
            ContinuityMessageDiscriminants::AirPlayTarget => 0x09,
            ContinuityMessageDiscriminants::AirPlaySource => 0x0a,
            ContinuityMessageDiscriminants::MagicSwitch => 0x0b,
            ContinuityMessageDiscriminants::Handoff => 0x0c,
            ContinuityMessageDiscriminants::TetheringTarget => 0x0d,
            ContinuityMessageDiscriminants::TetheringSource => 0x0e,
            ContinuityMessageDiscriminants::NearbyAction => 0x0f,
            ContinuityMessageDiscriminants::NearbyInfo => 0x10,
            ContinuityMessageDiscriminants::FindMy => 0x12,
        }
    }

    /// The kind of message with type byte `v`; `None` for an unknown byte.
    pub fn from_repr(v: u8) -> (r: Option<ContinuityMessageDiscriminants>)
        ensures
            r == kind_from_repr(v),
    {
        match v {
            0x03 => Some(ContinuityMessageDiscriminants::AirPrint),
            0x05 => Some(ContinuityMessageDiscriminants::AirDrop),
            0x06 => Some(ContinuityMessageDiscriminants::HomeKit),
            0x07 => Some(ContinuityMessageDiscriminants::ProximityPairing),
            0x08 => Some(ContinuityMessageDiscriminants::HeySiri),
            0x09 => Some(ContinuityMessageDiscriminants::AirPlayTarget),
            0x0a => Some(ContinuityMessageDiscriminants::AirPlaySource),
            0x0b => Some(ContinuityMessageDiscriminants::MagicSwitch),
            0x0c => Some(ContinuityMessageDiscriminants::Handoff),
            0x0d => Some(ContinuityMessageDiscriminants::TetheringTarget),
            0x0e => Some(ContinuityMessageDiscriminants::TetheringSource),
            0x0f => Some(ContinuityMessageDiscriminants::NearbyAction),
            0x10 => Some(ContinuityMessageDiscriminants::NearbyInfo),
            0x12 => Some(ContinuityMessageDiscriminants::FindMy),
            _ => None,
        }
    }
}

/// The length of `s` as a single byte (it wraps around at 256).
pub open spec fn length_byte(s: Seq<u8>) -> int {
    (s.len() % 256) as int
}

/// The messages on which Proximity Pairing decoding is defined.
pub open spec fn pairing_decodable(s: Seq<u8>) -> bool {
    &&& s.len() >= 1
    &&& s[0] == 0x07 ==> {
        &&& s.len() >= 2
        &&& length_byte(s) >= 2
        &&& s[1] == length_byte(s) - 2 ==> s.len() >= 5
    }
}

/// The decoded Proximity Pairing message `s`, for a decodable `s`.
pub open spec fn spec_decode_pairing(s: Seq<u8>) -> Result<ProximityPairing, ProximityPairingError> {
    if s[0] != 0x07 {
        Err(ProximityPairingError::InvalidMessageType(s[0]))
    } else if s[1] != length_byte(s) - 2 {
        Err(ProximityPairingError::InvalidMessageLength(s[1]))
    } else {
        Ok(ProximityPairing {
            device_model: match model_from_repr((s[3] + 256 * s[4]) as u16) {
                Some(m) => m,
                None => ProximityPairingDeviceModel::Unknown,
            },
        })
    }
}

/// The messages on which Continuity decoding is defined: the type and length bytes exist,
/// and a Proximity Pairing message whose length matches is decodable.
pub open spec fn message_decodable(s: Seq<u8>) -> bool {
    &&& s.len() >= 2
    &&& (s[0] == 0x07 && s[1] == (s.len() - 2) % 256) ==> pairing_decodable(s)
}

/// The message that kind `k` stands for, when it carries no content.
pub open spec fn plain_message(k: ContinuityMessageDiscriminants) -> ContinuityMessage {
    match k {
        ContinuityMessageDiscriminants::AirPrint => ContinuityMessage::AirPrint,
        ContinuityMessageDiscriminants::AirDrop => ContinuityMessage::AirDrop,
        ContinuityMessageDiscriminants::HomeKit => ContinuityMessage::HomeKit,
        ContinuityMessageDiscriminants::ProximityPairing => ContinuityMessage::ProximityPairing(
            ProximityPairing { device_model: ProximityPairingDeviceModel::Unknown },
        ),
        ContinuityMessageDiscriminants::HeySiri => ContinuityMessage::HeySiri,
        ContinuityMessageDiscriminants::AirPlayTarget => ContinuityMessage::AirPlayTarget,
        ContinuityMessageDiscriminants::AirPlaySource => ContinuityMessage::AirPlaySource,
        ContinuityMessageDiscriminants::MagicSwitch => ContinuityMessage::MagicSwitch,
        ContinuityMessageDiscriminants::Handoff => ContinuityMessage::Handoff,
        ContinuityMessageDiscriminants::TetheringTarget => ContinuityMessage::TetheringTarget,
        ContinuityMessageDiscriminants::TetheringSource => ContinuityMessage::TetheringSource,
        ContinuityMessageDiscriminants::NearbyAction => ContinuityMessage::NearbyAction,
        ContinuityMessageDiscriminants::NearbyInfo => ContinuityMessage::NearbyInfo,
        ContinuityMessageDiscriminants::FindMy => ContinuityMessage::FindMy,
    }
}

/// The decoded Continuity message `s`, for a decodable `s`.
pub open spec fn spec_decode_message(s: Seq<u8>) -> Result<ContinuityMessage, ContinuityMessageError> {
    if s[1] != (s.len() - 2) % 256 {
        Err(ContinuityMessageError::MessageLengthMismatch {
            declared: s[1],
            actual: (s.len() - 2) as usize,
        })
    } else {
        match kind_from_repr(s[0]) {
            None => Err(ContinuityMessageError::UnknownMessageType(s[0])),
            Some(k) => if k == ContinuityMessageDiscriminants::ProximityPairing {
                match spec_decode_pairing(s) {
                    Ok(p) => Ok(ContinuityMessage::ProximityPairing(p)),
                    Err(e) => Err(ContinuityMessageError::ProximityPairing(e)),
                }
            } else {
                Ok(plain_message(k))
            },
        }
    }
}

impl Default for ProximityPairing {
    /// An unknown device.
    fn default() -> (r: ProximityPairing)
        ensures
            r == (ProximityPairing { device_model: ProximityPairingDeviceModel::Unknown }),
    {
        ProximityPairing { device_model: ProximityPairingDeviceModel::Unknown }
    }
}

impl ProximityPairing {
    /// Decodes a Proximity Pairing message: type byte `0x07`, length byte, then the
    /// message with the device model in bytes 3-4.
    pub fn try_from_bytes(bytes: &[u8]) -> (r: Result<ProximityPairing, ProximityPairingError>)
        requires
            pairing_decodable(bytes@),
        ensures
            r == spec_decode_pairing(bytes@),
    {
        let message_type: u8 = bytes[0];
        if message_type != 0x07 {
            return Err(ProximityPairingError::InvalidMessageType(message_type));
        }
        let message_length: u8 = bytes[1];
        let length_byte: u8 = (bytes.len() % 256) as u8;
        if message_length != length_byte - 2 {
            return Err(ProximityPairingError::InvalidMessageLength(message_length));
        }
        // Bytes 3-4: device model
        let model_number: u16 = bytes[3] as u16 + (bytes[4] as u16) * 256;
        let device_model = match ProximityPairingDeviceModel::from_repr(model_number) {
            Some(m) => m,
            None => ProximityPairingDeviceModel::Unknown,
        };
        Ok(ProximityPairing { device_model })
    }
}

impl ContinuityMessage {
    /// The kind of this message.
    pub fn discriminant(&self) -> (r: ContinuityMessageDiscriminants)
        ensures
            r == message_kind(*self),
    {
        match self {
            ContinuityMessage::AirPrint => ContinuityMessageDiscriminants::AirPrint,
            ContinuityMessage::AirDrop => ContinuityMessageDiscriminants::AirDrop,
            ContinuityMessage::HomeKit => ContinuityMessageDiscriminants::HomeKit,
            ContinuityMessage::ProximityPairing(_) => ContinuityMessageDiscriminants::ProximityPairing,
            ContinuityMessage::HeySiri => ContinuityMessageDiscriminants::HeySiri,
            ContinuityMessage::AirPlayTarget => ContinuityMessageDiscriminants::AirPlayTarget,
            ContinuityMessage::AirPlaySource => ContinuityMessageDiscriminants::AirPlaySource,
            ContinuityMessage::MagicSwitch => ContinuityMessageDiscriminants::MagicSwitch,
            ContinuityMessage::Handoff => ContinuityMessageDiscriminants::Handoff,
            ContinuityMessage::TetheringTarget => ContinuityMessageDiscriminants::TetheringTarget,
            ContinuityMessage::TetheringSource => ContinuityMessageDiscriminants::TetheringSource,
            ContinuityMessage::NearbyAction => ContinuityMessageDiscriminants::NearbyAction,
            ContinuityMessage::NearbyInfo => ContinuityMessageDiscriminants::NearbyInfo,
            ContinuityMessage::FindMy => ContinuityMessageDiscriminants::FindMy,
        }
    }

    /// Decodes a Continuity message: type byte, length byte, message.
    ///
    /// Fails when the length byte differs from the number of bytes after it (modulo 256),
    /// when no kind of message has the type byte, or when a Proximity Pairing message
    /// inside cannot be decoded.
    pub fn try_from_bytes(value: &[u8]) -> (r: Result<ContinuityMessage, ContinuityMessageError>)
        requires
            message_decodable(value@),
        ensures
            r == spec_decode_message(value@),
    {
        let message_type: u8 = value[0];
        let message_length: u8 = value[1];
        let actual: usize = value.len() - 2;
        if message_length != (actual % 256) as u8 {
            return Err(ContinuityMessageError::MessageLengthMismatch {
                declared: message_length,
                actual,
            });
        }
        let kind = match ContinuityMessageDiscriminants::from_repr(message_type) {
            Some(k) => k,
            None => {
                return Err(ContinuityMessageError::UnknownMessageType(message_type));
            },
        };
        match kind {
            ContinuityMessageDiscriminants::AirPrint => Ok(ContinuityMessage::AirPrint),
            ContinuityMessageDiscriminants::AirDrop => Ok(ContinuityMessage::AirDrop),
            ContinuityMessageDiscriminants::HomeKit => Ok(ContinuityMessage::HomeKit),
            ContinuityMessageDiscriminants::ProximityPairing => {
                match ProximityPairing::try_from_bytes(value) {
                    Ok(p) => Ok(ContinuityMessage::ProximityPairing(p)),
                    Err(e) => Err(ContinuityMessageError::ProximityPairing(e)),
                }
            },
            ContinuityMessageDiscriminants::HeySiri => Ok(ContinuityMessage::HeySiri),
            ContinuityMessageDiscriminants::AirPlayTarget => Ok(ContinuityMessage::AirPlayTarget),
            ContinuityMessageDiscriminants::AirPlaySource => Ok(ContinuityMessage::AirPlaySource),
            ContinuityMessageDiscriminants::MagicSwitch => Ok(ContinuityMessage::MagicSwitch),
            ContinuityMessageDiscriminants::Handoff => Ok(ContinuityMessage::Handoff),
            ContinuityMessageDiscriminants::TetheringTarget => Ok(ContinuityMessage::TetheringTarget),
            ContinuityMessageDiscriminants::TetheringSource => Ok(ContinuityMessage::TetheringSource),
            ContinuityMessageDiscriminants::NearbyAction => Ok(ContinuityMessage::NearbyAction),
            ContinuityMessageDiscriminants::NearbyInfo => Ok(ContinuityMessage::NearbyInfo),
            ContinuityMessageDiscriminants::FindMy => Ok(ContinuityMessage::FindMy),
        }
    }
}

/// Reading a kind back from its type byte gives the kind.
pub proof fn lemma_kind_repr_roundtrip(k: ContinuityMessageDiscriminants)
    ensures
        kind_from_repr(kind_repr(k)) == Some(k),
{
}

/// The type byte of each kind of message, as Apple's Continuity protocol numbers them.
pub proof fn lemma_kind_type_bytes()
    ensures
        kind_repr(ContinuityMessageDiscriminants::AirPrint) == 0x03,
        kind_repr(ContinuityMessageDiscriminants::AirDrop) == 0x05,
        kind_repr(ContinuityMessageDiscriminants::HomeKit) == 0x06,
        kind_repr(ContinuityMessageDiscriminants::ProximityPairing) == 0x07,
        kind_repr(ContinuityMessageDiscriminants::HeySiri) == 0x08,
        kind_repr(ContinuityMessageDiscriminants::AirPlayTarget) == 0x09,
        kind_repr(ContinuityMessageDiscriminants::AirPlaySource) == 0x0a,
        kind_repr(ContinuityMessageDiscriminants::MagicSwitch) == 0x0b,
        kind_repr(ContinuityMessageDiscriminants::Handoff) == 0x0c,
        kind_repr(ContinuityMessageDiscriminants::TetheringTarget) == 0x0d,
        kind_repr(ContinuityMessageDiscriminants::TetheringSource) == 0x0e,
        kind_repr(ContinuityMessageDiscriminants::NearbyAction) == 0x0f,
        kind_repr(ContinuityMessageDiscriminants::NearbyInfo) == 0x10,
        kind_repr(ContinuityMessageDiscriminants::FindMy) == 0x12,
        forall|v: u8|
            kind_from_repr(v) is None <==> !(v == 0x03 || (0x05 <= v <= 0x10) || v == 0x12),
{
}

/// A message decoded from bytes is the kind that its type byte numbers (see
/// [`lemma_kind_type_bytes`]): a message whose type byte is `0x08` is a Hey Siri message,
/// one whose type byte is `0x09` an AirPlay target, and so on.
pub proof fn lemma_decoded_kind_by_type_byte(s: Seq<u8>)
    requires
        message_decodable(s),
        spec_decode_message(s) is Ok,
    ensures
        ({
            let k = message_kind(spec_decode_message(s)->Ok_0);
            &&& s[0] == 0x03 <==> k == ContinuityMessageDiscriminants::AirPrint
            &&& s[0] == 0x05 <==> k == ContinuityMessageDiscriminants::AirDrop
            &&& s[0] == 0x06 <==> k == ContinuityMessageDiscriminants::HomeKit
            &&& s[0] == 0x07 <==> k == ContinuityMessageDiscriminants::ProximityPairing
            &&& s[0] == 0x08 <==> k == ContinuityMessageDiscriminants::HeySiri
            &&& s[0] == 0x09 <==> k == ContinuityMessageDiscriminants::AirPlayTarget
            &&& s[0] == 0x0a <==> k == ContinuityMessageDiscriminants::AirPlaySource
            &&& s[0] == 0x0b <==> k == ContinuityMessageDiscriminants::MagicSwitch
            &&& s[0] == 0x0c <==> k == ContinuityMessageDiscriminants::Handoff
            &&& s[0] == 0x0d <==> k == ContinuityMessageDiscriminants::TetheringTarget
            &&& s[0] == 0x0e <==> k == ContinuityMessageDiscriminants::TetheringSource
            &&& s[0] == 0x0f <==> k == ContinuityMessageDiscriminants::NearbyAction
            &&& s[0] == 0x10 <==> k == ContinuityMessageDiscriminants::NearbyInfo
            &&& s[0] == 0x12 <==> k == ContinuityMessageDiscriminants::FindMy
        }),
{
    lemma_kind_type_bytes();
    lemma_decoded_kind_matches_type(s);
}

/// The model number of each model, as Apple numbers them.
pub proof fn lemma_model_numbers()
    ensures
        model_repr(ProximityPairingDeviceModel::Unknown) == 0,
        model_repr(ProximityPairingDeviceModel::AirPods) == 0x2002,
        model_repr(ProximityPairingDeviceModel::AirPods2) == 0x200F,
        model_repr(ProximityPairingDeviceModel::AirPods3) == 0x2013,
        model_repr(ProximityPairingDeviceModel::AirPodsPro) == 0x200E,
        model_repr(ProximityPairingDeviceModel::AirPodsPro2) == 0x2014,
        model_repr(ProximityPairingDeviceModel::AirPodsMax) == 0x200A,
        model_repr(ProximityPairingDeviceModel::PowerBeats3) == 0x2003,
        model_repr(ProximityPairingDeviceModel::BeatsX) == 0x2005,
        model_repr(ProximityPairingDeviceModel::BeatsSolo3) == 0x2006,
        model_repr(ProximityPairingDeviceModel::BeatsFit3) == 0x2012,
{
}

/// With a matching length byte, a message decodes to the message its type byte numbers:
/// `0x03` AirPrint, `0x05` AirDrop, `0x06` HomeKit, `0x07` Proximity Pairing (of the model
/// numbered by bytes 3 and 4), `0x08` Hey Siri, `0x09` AirPlay target, `0x0a` AirPlay
/// source, `0x0b` Magic Switch, `0x0c` Handoff, `0x0d` tethering target, `0x0e` tethering
/// source, `0x0f` nearby action, `0x10` nearby info and `0x12` Find My; any other type byte
/// is refused as unknown.
pub proof fn lemma_messages_by_type_byte(s: Seq<u8>)
    requires
        message_decodable(s),
        s[1] == (s.len() - 2) % 256,
    ensures
        s[0] == 0x03 ==> spec_decode_message(s) matches Ok(ContinuityMessage::AirPrint),
        s[0] == 0x05 ==> spec_decode_message(s) matches Ok(ContinuityMessage::AirDrop),
        s[0] == 0x06 ==> spec_decode_message(s) matches Ok(ContinuityMessage::HomeKit),
        s[0] == 0x07 ==> (spec_decode_message(s) matches Ok(ContinuityMessage::ProximityPairing(p)) && (
        forall|m: ProximityPairingDeviceModel| model_repr(m) == s[3] + 256 * s[4] ==> p.device_model == m)),
        s[0] == 0x08 ==> spec_decode_message(s) matches Ok(ContinuityMessage::HeySiri),
        s[0] == 0x09 ==> spec_decode_message(s) matches Ok(ContinuityMessage::AirPlayTarget),
        s[0] == 0x0a ==> spec_decode_message(s) matches Ok(ContinuityMessage::AirPlaySource),
        s[0] == 0x0b ==> spec_decode_message(s) matches Ok(ContinuityMessage::MagicSwitch),
        s[0] == 0x0c ==> spec_decode_message(s) matches Ok(ContinuityMessage::Handoff),
        s[0] == 0x0d ==> spec_decode_message(s) matches Ok(ContinuityMessage::TetheringTarget),
        s[0] == 0x0e ==> spec_decode_message(s) matches Ok(ContinuityMessage::TetheringSource),
        s[0] == 0x0f ==> spec_decode_message(s) matches Ok(ContinuityMessage::NearbyAction),
        s[0] == 0x10 ==> spec_decode_message(s) matches Ok(ContinuityMessage::NearbyInfo),
        s[0] == 0x12 ==> spec_decode_message(s) matches Ok(ContinuityMessage::FindMy),
        !(s[0] == 0x03 || (0x05 <= s[0] <= 0x10) || s[0] == 0x12) ==> spec_decode_message(s)
            == Err::<ContinuityMessage, ContinuityMessageError>(
            ContinuityMessageError::UnknownMessageType(s[0]),
        ),
{
    if s[0] == 0x07 {
        let v: u16 = (s[3] + 256 * s[4]) as u16;
        assert(v == s[3] + 256 * s[4]);
        if let Some(m) = model_from_repr(v) {
            assert(model_repr(m) == v);
        }
    }
}

/// A decoded message has the kind named by its type byte.
pub proof fn lemma_decoded_kind_matches_type(s: Seq<u8>)
    requires
        message_decodable(s),
        spec_decode_message(s) is Ok,
    ensures
        kind_repr(message_kind(spec_decode_message(s)->Ok_0)) == s[0],
{
}

/// Inside a Continuity message whose length matches, the Proximity Pairing decoding never
/// fails: the message decodes whenever its type byte is known.
pub proof fn lemma_matching_length_decodes(s: Seq<u8>)
    requires
        message_decodable(s),
        s[1] == (s.len() - 2) % 256,
    ensures
        spec_decode_message(s) is Ok <==> kind_from_repr(s[0]) is Some,
{
}

} // verus!
