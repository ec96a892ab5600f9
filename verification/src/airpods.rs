//! Decoding of the Proximity Pairing beacons that AirPods and Beats devices broadcast
//! inside Apple Continuity advertisements.
//!
//! There are several versions of the same protocol. The first one keeps the battery
//! levels in bytes 7 and 8; the second one keeps them in bytes 12 and 13, in an order
//! that may be flipped. This decoder follows the second version.
use vstd::prelude::*;

verus! {

/// Known device models, by the 16-bit little-endian model number of the beacon.
#[derive(Clone, Copy, Debug, PartialEq, Eq, Structural, Hash)]
pub enum ProximityPairingDeviceModel {
    Unknown,
    AirPods,
    AirPods2,
    AirPods3,
    AirPods4,
    AirPods4Anc,
    AirPodsPro,
    AirPodsPro2,
    AirPodsMax,
    AirPodsMaxUsbC,
    PowerBeats3,
    BeatsX,
    BeatsSolo3,
    BeatsFit3,
}

/// The model number of each model.
pub open spec fn model_repr(m: ProximityPairingDeviceModel) -> u16 {
    match m {
        ProximityPairingDeviceModel::Unknown => 0,
        ProximityPairingDeviceModel::AirPods => 0x2002,
        ProximityPairingDeviceModel::AirPods2 => 0x200F,
        ProximityPairingDeviceModel::AirPods3 => 0x2013,
        ProximityPairingDeviceModel::AirPods4 => 0x1920,
        ProximityPairingDeviceModel::AirPods4Anc => 0x1B20,
        ProximityPairingDeviceModel::AirPodsPro => 0x200E,
        ProximityPairingDeviceModel::AirPodsPro2 => 0x2014,
        ProximityPairingDeviceModel::AirPodsMax => 0x200A,
        ProximityPairingDeviceModel::AirPodsMaxUsbC => 0x1F20,
        ProximityPairingDeviceModel::PowerBeats3 => 0x2003,
        ProximityPairingDeviceModel::BeatsX => 0x2005,
        ProximityPairingDeviceModel::BeatsSolo3 => 0x2006,
        ProximityPairingDeviceModel::BeatsFit3 => 0x2012,
    }
}

/// The model with model number `v`, if any.
pub open spec fn model_from_repr(v: u16) -> Option<ProximityPairingDeviceModel> {
    if v == 0 { Some(ProximityPairingDeviceModel::Unknown) }
    else if v == 0x2002 { Some(ProximityPairingDeviceModel::AirPods) }
    else if v == 0x200F { Some(ProximityPairingDeviceModel::AirPods2) }
    else if v == 0x2013 { Some(ProximityPairingDeviceModel::AirPods3) }
    else if v == 0x1920 { Some(ProximityPairingDeviceModel::AirPods4) }
    else if v == 0x1B20 { Some(ProximityPairingDeviceModel::AirPods4Anc) }
    else if v == 0x200E { Some(ProximityPairingDeviceModel::AirPodsPro) }
    else if v == 0x2014 { Some(ProximityPairingDeviceModel::AirPodsPro2) }
    else if v == 0x200A { Some(ProximityPairingDeviceModel::AirPodsMax) }
    else if v == 0x1F20 { Some(ProximityPairingDeviceModel::AirPodsMaxUsbC) }
    else if v == 0x2003 { Some(ProximityPairingDeviceModel::PowerBeats3) }
    else if v == 0x2005 { Some(ProximityPairingDeviceModel::BeatsX) }
    else if v == 0x2006 { Some(ProximityPairingDeviceModel::BeatsSolo3) }
    else if v == 0x2012 { Some(ProximityPairingDeviceModel::BeatsFit3) }
    else { None }
}

/// The display name of each model.
pub open spec fn model_name(m: ProximityPairingDeviceModel) -> Seq<char> {
    match m {
        ProximityPairingDeviceModel::Unknown => "Unknown"@,
        ProximityPairingDeviceModel::AirPods => "AirPods"@,
        ProximityPairingDeviceModel::AirPods2 => "AirPods 2"@,
        ProximityPairingDeviceModel::AirPods3 => "AirPods 3"@,
        ProximityPairingDeviceModel::AirPods4 => "AirPods 4"@,
        ProximityPairingDeviceModel::AirPods4Anc => "AirPods 4 (ANC)"@,
        ProximityPairingDeviceModel::AirPodsPro => "AirPods Pro"@,
        ProximityPairingDeviceModel::AirPodsPro2 => "AirPods Pro 2"@,
        ProximityPairingDeviceModel::AirPodsMax => "AirPods Max"@,
        ProximityPairingDeviceModel::AirPodsMaxUsbC => "AirPods Max (USB-C)"@,
        ProximityPairingDeviceModel::PowerBeats3 => "PowerBeats 3"@,
        ProximityPairingDeviceModel::BeatsX => "Beats X"@,
        ProximityPairingDeviceModel::BeatsSolo3 => "Beats Solo 3"@,
        ProximityPairingDeviceModel::BeatsFit3 => "Beats Fit 3"@,
    }
}

impl ProximityPairingDeviceModel {
    /// The model number of this model.
    pub fn repr(&self) -> (r: u16)
        ensures
            r == model_repr(*self),
    {
        match self {
            ProximityPairingDeviceModel::Unknown => 0,
            ProximityPairingDeviceModel::AirPods => 0x2002,
            ProximityPairingDeviceModel::AirPods2 => 0x200F,
            ProximityPairingDeviceModel::AirPods3 => 0x2013,
            ProximityPairingDeviceModel::AirPods4 => 0x1920,
            ProximityPairingDeviceModel::AirPods4Anc => 0x1B20,
            ProximityPairingDeviceModel::AirPodsPro => 0x200E,
            ProximityPairingDeviceModel::AirPodsPro2 => 0x2014,
            ProximityPairingDeviceModel::AirPodsMax => 0x200A,
            ProximityPairingDeviceModel::AirPodsMaxUsbC => 0x1F20,
            ProximityPairingDeviceModel::PowerBeats3 => 0x2003,
            ProximityPairingDeviceModel::BeatsX => 0x2005,
            ProximityPairingDeviceModel::BeatsSolo3 => 0x2006,
            ProximityPairingDeviceModel::BeatsFit3 => 0x2012,
        }
    }

    /// The model with model number `v`; `None` for an unknown number.
    pub fn from_repr(v: u16) -> (r: Option<ProximityPairingDeviceModel>)
        ensures
            r == model_from_repr(v),
    {
        match v {
            0 => Some(ProximityPairingDeviceModel::Unknown),
            0x2002 => Some(ProximityPairingDeviceModel::AirPods),
            0x200F => Some(ProximityPairingDeviceModel::AirPods2),
            0x2013 => Some(ProximityPairingDeviceModel::AirPods3),
            0x1920 => Some(ProximityPairingDeviceModel::AirPods4),
            0x1B20 => Some(ProximityPairingDeviceModel::AirPods4Anc),
            0x200E => Some(ProximityPairingDeviceModel::AirPodsPro),
            0x2014 => Some(ProximityPairingDeviceModel::AirPodsPro2),
            0x200A => Some(ProximityPairingDeviceModel::AirPodsMax),
            0x1F20 => Some(ProximityPairingDeviceModel::AirPodsMaxUsbC),
            0x2003 => Some(ProximityPairingDeviceModel::PowerBeats3),
            0x2005 => Some(ProximityPairingDeviceModel::BeatsX),
            0x2006 => Some(ProximityPairingDeviceModel::BeatsSolo3),
            0x2012 => Some(ProximityPairingDeviceModel::BeatsFit3),
            _ => None,
        }
    }

    /// The display name of this model, such as `"AirPods Pro 2"`.
    pub fn name(&self) -> (r: &'static str)
        ensures
            r@ == model_name(*self),
    {
        match self {
            ProximityPairingDeviceModel::Unknown => "Unknown",
            ProximityPairingDeviceModel::AirPods => "AirPods",
            ProximityPairingDeviceModel::AirPods2 => "AirPods 2",
            ProximityPairingDeviceModel::AirPods3 => "AirPods 3",
            ProximityPairingDeviceModel::AirPods4 => "AirPods 4",
            ProximityPairingDeviceModel::AirPods4Anc => "AirPods 4 (ANC)",
            ProximityPairingDeviceModel::AirPodsPro => "AirPods Pro",
            ProximityPairingDeviceModel::AirPodsPro2 => "AirPods Pro 2",
            ProximityPairingDeviceModel::AirPodsMax => "AirPods Max",
            ProximityPairingDeviceModel::AirPodsMaxUsbC => "AirPods Max (USB-C)",
            ProximityPairingDeviceModel::PowerBeats3 => "PowerBeats 3",
            ProximityPairingDeviceModel::BeatsX => "Beats X",
            ProximityPairingDeviceModel::BeatsSolo3 => "Beats Solo 3",
            ProximityPairingDeviceModel::BeatsFit3 => "Beats Fit 3",
        }
    }
}

/// Device colors, by the color byte of the beacon.
#[derive(Clone, Copy, Debug, PartialEq, Eq, Structural, Hash)]
pub enum ProximityPairingDeviceColor {
    White,
    Black,
    Red,
    Blue,
    Pink,
    Gray,
    Silver,
    Gold,
    RoseGold,
    SpaceGray,
    DarkBlue,
    LightBlue,
    Yellow,
}

/// The color byte of each color.
pub open spec fn color_repr(c: ProximityPairingDeviceColor) -> u8 {
    match c {
        ProximityPairingDeviceColor::White => 0x00,
        ProximityPairingDeviceColor::Black => 0x01,
        ProximityPairingDeviceColor::Red => 0x02,
        ProximityPairingDeviceColor::Blue => 0x03,
        ProximityPairingDeviceColor::Pink => 0x04,
        ProximityPairingDeviceColor::Gray => 0x05,
        ProximityPairingDeviceColor::Silver => 0x06,
        ProximityPairingDeviceColor::Gold => 0x07,
        ProximityPairingDeviceColor::RoseGold => 0x08,
        ProximityPairingDeviceColor::SpaceGray => 0x09,
        ProximityPairingDeviceColor::DarkBlue => 0x0A,
        ProximityPairingDeviceColor::LightBlue => 0x0B,
        ProximityPairingDeviceColor::Yellow => 0x0C,
    }
}

/// The color with color byte `v`, if any.
pub open spec fn color_from_repr(v: u8) -> Option<ProximityPairingDeviceColor> {
    if v == 0x00 { Some(ProximityPairingDeviceColor::White) }
    else if v == 0x01 { Some(ProximityPairingDeviceColor::Black) }
    else if v == 0x02 { Some(ProximityPairingDeviceColor::Red) }
    else if v == 0x03 { Some(ProximityPairingDeviceColor::Blue) }
    else if v == 0x04 { Some(ProximityPairingDeviceColor::Pink) }
    else if v == 0x05 { Some(ProximityPairingDeviceColor::Gray) }
    else if v == 0x06 { Some(ProximityPairingDeviceColor::Silver) }
    else if v == 0x07 { Some(ProximityPairingDeviceColor::Gold) }
    else if v == 0x08 { Some(ProximityPairingDeviceColor::RoseGold) }
    else if v == 0x09 { Some(ProximityPairingDeviceColor::SpaceGray) }
    else if v == 0x0A { Some(ProximityPairingDeviceColor::DarkBlue) }
    else if v == 0x0B { Some(ProximityPairingDeviceColor::LightBlue) }
    else if v == 0x0C { Some(ProximityPairingDeviceColor::Yellow) }
    else { None }
}

impl ProximityPairingDeviceColor {
    /// The color byte of this color.
    pub fn repr(&self) -> (r: u8)
        ensures
            r == color_repr(*self),
    {
        match self {
            ProximityPairingDeviceColor::White => 0x00,
            ProximityPairingDeviceColor::Black => 0x01,
            ProximityPairingDeviceColor::Red => 0x02,
            ProximityPairingDeviceColor::Blue => 0x03,
            ProximityPairingDeviceColor::Pink => 0x04,
            ProximityPairingDeviceColor::Gray => 0x05,
            ProximityPairingDeviceColor::Silver => 0x06,
            ProximityPairingDeviceColor::Gold => 0x07,
            ProximityPairingDeviceColor::RoseGold => 0x08,
            ProximityPairingDeviceColor::SpaceGray => 0x09,
            ProximityPairingDeviceColor::DarkBlue => 0x0A,
            ProximityPairingDeviceColor::LightBlue => 0x0B,
            ProximityPairingDeviceColor::Yellow => 0x0C,
        }
    }

    /// The color with color byte `v`; `None` for an unknown byte.
    pub fn from_repr(v: u8) -> (r: Option<ProximityPairingDeviceColor>)
        ensures
            r == color_from_repr(v),
    {
        match v {
            0x00 => Some(ProximityPairingDeviceColor::White),
            0x01 => Some(ProximityPairingDeviceColor::Black),
            0x02 => Some(ProximityPairingDeviceColor::Red),
            0x03 => Some(ProximityPairingDeviceColor::Blue),
            0x04 => Some(ProximityPairingDeviceColor::Pink),
            0x05 => Some(ProximityPairingDeviceColor::Gray),
            0x06 => Some(ProximityPairingDeviceColor::Silver),
            0x07 => Some(ProximityPairingDeviceColor::Gold),
            0x08 => Some(ProximityPairingDeviceColor::RoseGold),
            0x09 => Some(ProximityPairingDeviceColor::SpaceGray),
            0x0A => Some(ProximityPairingDeviceColor::DarkBlue),
            0x0B => Some(ProximityPairingDeviceColor::LightBlue),
            0x0C => Some(ProximityPairingDeviceColor::Yellow),
            _ => None,
        }
    }
}

/// The decoded content of a Proximity Pairing beacon.
#[derive(Clone, Copy, Debug, PartialEq, Eq, Structural)]
pub struct ProximityPairing {
    pub device_model: ProximityPairingDeviceModel,
    pub device_color: ProximityPairingDeviceColor,
    /// Battery level in percent; `None` when the bud is disconnected.
    pub left_battery: Option<u8>,
    pub right_battery: Option<u8>,
    pub case_battery: Option<u8>,
    pub left_charging: bool,
    pub right_charging: bool,
    pub case_charging: bool,
}

/// Why a beacon could not be decoded.
#[derive(Clone, Copy, Debug, PartialEq, Eq, Structural)]
pub enum ProximityPairingError {
    /// The first byte is not the Proximity Pairing message type `0x07`.
    InvalidMessageType(u8),
    /// The length byte does not match the number of bytes that follow it.
    InvalidMessageLength(u8),
}

/// The message type byte of a Proximity Pairing message.
pub const PROXIMITY_PAIRING_MESSAGE_TYPE: u8 = 0x07;

/// Battery status that marks a disconnected part.
pub const DISCONNECTED_STATUS: u8 = 15;

/// The highest battery status of a connected part.
pub const MAX_CONNECTED_STATUS: u8 = 10;

/// The battery level in percent that a battery status stands for: statuses `0..=9`
/// stand for the middle of their tenth, `10` for a full battery, and anything above
/// for a disconnected part.
pub open spec fn battery_level(status: u8) -> Option<u8> {
    if status == MAX_CONNECTED_STATUS {
        Some(100u8)
    } else if status < MAX_CONNECTED_STATUS {
        Some((status * 10 + 5) as u8)
    } else {
        None
    }
}

/// Whether the byte order of the two buds is flipped, read from the suffix byte.
pub open spec fn suffix_flipped(suffix: u8) -> bool {
    suffix & 0x02 == 0
}

/// The 16-bit little-endian number in bytes `i` and `i + 1` of `s`.
pub open spec fn u16_le_at(s: Seq<u8>, i: int) -> int {
    s[i] + 256 * s[i + 1]
}

/// The length of `s` as a single byte (it wraps around at 256).
pub open spec fn length_byte(s: Seq<u8>) -> int {
    (s.len() % 256) as int
}

/// The beacons on which decoding is defined: the first byte exists and, for a Proximity
/// Pairing message, the length byte can be compared and, when it matches, the fixed
/// part of the message (17 bytes) is present.
pub open spec fn decodable(s: Seq<u8>) -> bool {
    &&& s.len() >= 1
    &&& s[0] == PROXIMITY_PAIRING_MESSAGE_TYPE ==> {
        &&& s.len() >= 2
        &&& length_byte(s) >= 2
        &&& s[1] == length_byte(s) - 2 ==> s.len() >= 17
    }
}

/// The decoded beacon `s`, for a decodable `s`.
pub open spec fn spec_decode(s: Seq<u8>) -> Result<ProximityPairing, ProximityPairingError> {
    if s[0] != PROXIMITY_PAIRING_MESSAGE_TYPE {
        Err(ProximityPairingError::InvalidMessageType(s[0]))
    } else if s[1] != length_byte(s) - 2 {
        Err(ProximityPairingError::InvalidMessageLength(s[1]))
    } else {
        let flipped = suffix_flipped(s[10]);
        let left_status: u8 = if flipped { s[12] } else { s[13] };
        let right_status: u8 = if flipped { s[13] } else { s[12] };
        let charge = s[14];
        Ok(ProximityPairing {
            device_model: match model_from_repr(u16_le_at(s, 3) as u16) {
                Some(m) => m,
                None => ProximityPairingDeviceModel::Unknown,
            },
            device_color: match color_from_repr(s[9]) {
                Some(c) => c,
                None => ProximityPairingDeviceColor::White,
            },
            left_battery: battery_level(left_status),
            right_battery: battery_level(right_status),
            case_battery: battery_level(s[15]),
            left_charging: if flipped { charge & 0x02 != 0 } else { charge & 0x01 != 0 },
            right_charging: if flipped { charge & 0x01 != 0 } else { charge & 0x02 != 0 },
            case_charging: charge & 0x04 != 0,
        })
    }
}

/// The battery level that a battery status stands for (see [`battery_level`]).
pub fn decode_battery_level(status: u8) -> (r: Option<u8>)
    ensures
        r == battery_level(status),
        r matches Some(l) ==> 5 <= l <= 100,
        r is None <==> status > MAX_CONNECTED_STATUS,
{
    if status == MAX_CONNECTED_STATUS {
        Some(100)
    } else if status < MAX_CONNECTED_STATUS {
        Some(status * 10 + 5)
    } else {
        None
    }
}

impl Default for ProximityPairing {
    /// The value that stands for "nothing known yet": an unknown white device with no
    /// battery readings and nothing charging.
    fn default() -> (r: ProximityPairing)
        ensures
            r == (ProximityPairing {
                device_model: ProximityPairingDeviceModel::Unknown,
                device_color: ProximityPairingDeviceColor::White,
                left_battery: None,
                right_battery: None,
                case_battery: None,
                left_charging: false,
                right_charging: false,
                case_charging: false,
            }),
    {
        ProximityPairing {
            device_model: ProximityPairingDeviceModel::Unknown,
            device_color: ProximityPairingDeviceColor::White,
            left_battery: None,
            right_battery: None,
            case_battery: None,
            left_charging: false,
            right_charging: false,
            case_charging: false,
        }
    }
}

impl ProximityPairing {
    /// Decodes a Proximity Pairing message: the message type byte, the length byte, and
    /// the message itself.
    ///
    /// Fails when the type byte is not `0x07` or when the length byte differs from the
    /// number of bytes after it (counted modulo 256).
    pub fn try_from_bytes(bytes: &[u8]) -> (r: Result<ProximityPairing, ProximityPairingError>)
        requires
            decodable(bytes@),
        ensures
            r == spec_decode(bytes@),
    {
        let message_type: u8 = bytes[0];
        if message_type != PROXIMITY_PAIRING_MESSAGE_TYPE {
            return Err(ProximityPairingError::InvalidMessageType(message_type));
        }
        let message_length: u8 = bytes[1];
        let length_byte: u8 = (bytes.len() % 256) as u8;
        if message_length != length_byte - 2 {
            return Err(ProximityPairingError::InvalidMessageLength(message_length));
        }
        // Bytes 3-4: device model
        let model_number: u16 = bytes[3] as u16 + (bytes[4] as u16) * 256;
        let device_model = match ProximityPairingDeviceModel::from_repr(model_number) {
            Some(m) => m,
            None => ProximityPairingDeviceModel::Unknown,
        };
        // Byte 9: device color
        let device_color = match ProximityPairingDeviceColor::from_repr(bytes[9]) {
            Some(c) => c,
            None => ProximityPairingDeviceColor::White,
        };
        // Byte 10: suffix, which tells whether the bud order is flipped
        let flipped = bytes[10] & 0x02 == 0;
        // Bytes 12-13: battery levels of the buds
        let left_status: u8 = if flipped { bytes[12] } else { bytes[13] };
        let right_status: u8 = if flipped { bytes[13] } else { bytes[12] };
        // Byte 14: charging status (bits 0/1 for the buds, bit 2 for the case)
        let charge: u8 = bytes[14];
        let left_charging = if flipped { charge & 0x02 != 0 } else { charge & 0x01 != 0 };
        let right_charging = if flipped { charge & 0x01 != 0 } else { charge & 0x02 != 0 };
        let case_charging = charge & 0x04 != 0;
        // Byte 15: case battery
        let case_status: u8 = bytes[15];
        Ok(ProximityPairing {
            device_model,
            device_color,
            left_battery: decode_battery_level(left_status),
            right_battery: decode_battery_level(right_status),
            case_battery: decode_battery_level(case_status),
            left_charging,
            right_charging,
            case_charging,
        })
    }
}

/// A beacon decodes exactly when its type byte is `0x07` and its length byte matches.
pub proof fn lemma_decode_succeeds_iff(s: Seq<u8>)
    requires
        decodable(s),
    ensures
        spec_decode(s) is Ok <==> (s[0] == PROXIMITY_PAIRING_MESSAGE_TYPE && s[1] == s.len()
            % 256 - 2),
{
}

/// The model number and color byte of each model and color, as Apple numbers them.
pub proof fn lemma_model_and_color_numbers()
    ensures
        model_repr(ProximityPairingDeviceModel::Unknown) == 0,
        model_repr(ProximityPairingDeviceModel::AirPods) == 0x2002,
        model_repr(ProximityPairingDeviceModel::AirPods2) == 0x200F,
        model_repr(ProximityPairingDeviceModel::AirPods3) == 0x2013,
        model_repr(ProximityPairingDeviceModel::AirPods4) == 0x1920,
        model_repr(ProximityPairingDeviceModel::AirPods4Anc) == 0x1B20,
        model_repr(ProximityPairingDeviceModel::AirPodsPro) == 0x200E,
        model_repr(ProximityPairingDeviceModel::AirPodsPro2) == 0x2014,
        model_repr(ProximityPairingDeviceModel::AirPodsMax) == 0x200A,
        model_repr(ProximityPairingDeviceModel::AirPodsMaxUsbC) == 0x1F20,
        model_repr(ProximityPairingDeviceModel::PowerBeats3) == 0x2003,
        model_repr(ProximityPairingDeviceModel::BeatsX) == 0x2005,
        model_repr(ProximityPairingDeviceModel::BeatsSolo3) == 0x2006,
        model_repr(ProximityPairingDeviceModel::BeatsFit3) == 0x2012,
        color_repr(ProximityPairingDeviceColor::White) == 0x00,
        color_repr(ProximityPairingDeviceColor::Black) == 0x01,
        color_repr(ProximityPairingDeviceColor::Red) == 0x02,
        color_repr(ProximityPairingDeviceColor::Blue) == 0x03,
        color_repr(ProximityPairingDeviceColor::Pink) == 0x04,
        color_repr(ProximityPairingDeviceColor::Gray) == 0x05,
        color_repr(ProximityPairingDeviceColor::Silver) == 0x06,
        color_repr(ProximityPairingDeviceColor::Gold) == 0x07,
        color_repr(ProximityPairingDeviceColor::RoseGold) == 0x08,
        color_repr(ProximityPairingDeviceColor::SpaceGray) == 0x09,
        color_repr(ProximityPairingDeviceColor::DarkBlue) == 0x0A,
        color_repr(ProximityPairingDeviceColor::LightBlue) == 0x0B,
        color_repr(ProximityPairingDeviceColor::Yellow) == 0x0C,
{
}

/// A decoded beacon names the model whose number is in bytes 3 and 4 (little-endian) and
/// the color whose byte is byte 9; an unknown model number gives `Unknown` and an unknown
/// color byte gives `White`.
pub proof fn lemma_decoded_model_and_color(s: Seq<u8>)
    requires
        decodable(s),
        spec_decode(s) is Ok,
    ensures
        ({
            let p = spec_decode(s)->Ok_0;
            &&& forall|m: ProximityPairingDeviceModel| model_repr(m) == s[3] + 256 * s[4] ==> p.device_model == m
            &&& (forall|m: ProximityPairingDeviceModel| model_repr(m) != s[3] + 256 * s[4])
                ==> p.device_model == ProximityPairingDeviceModel::Unknown
            &&& forall|c: ProximityPairingDeviceColor| color_repr(c) == s[9] ==> p.device_color == c
            &&& (forall|c: ProximityPairingDeviceColor| color_repr(c) != s[9])
                ==> p.device_color == ProximityPairingDeviceColor::White
        }),
{
    let v: u16 = (s[3] + 256 * s[4]) as u16;
    assert(v == s[3] + 256 * s[4]);
    if let Some(m) = model_from_repr(v) {
        assert(model_repr(m) == v);
    }
    if let Some(c) = color_from_repr(s[9]) {
        assert(color_repr(c) == s[9]);
    }
}

/// Every battery reading of a decoded beacon is the level its status byte stands for: a
/// status of 10 is a full battery (100%), a status `s` below 10 is `10 * s + 5` percent,
/// and any higher status is a disconnected part (`None`). The case reads byte 15; the buds
/// read bytes 12 and 13, the left bud byte 12 unless bit 1 of the suffix byte 10 is set.
pub proof fn lemma_battery_levels(s: Seq<u8>)
    requires
        decodable(s),
        spec_decode(s) is Ok,
    ensures
        ({
            let p = spec_decode(s)->Ok_0;
            let left: u8 = if s[10] & 0x02 == 0 { s[12] } else { s[13] };
            let right: u8 = if s[10] & 0x02 == 0 { s[13] } else { s[12] };
            &&& s[15] == 10 ==> p.case_battery == Some(100u8)
            &&& s[15] < 10 ==> p.case_battery == Some((10 * s[15] + 5) as u8)
            &&& s[15] > 10 ==> p.case_battery is None
            &&& left == 10 ==> p.left_battery == Some(100u8)
            &&& left < 10 ==> p.left_battery == Some((10 * left + 5) as u8)
            &&& left > 10 ==> p.left_battery is None
            &&& right == 10 ==> p.right_battery == Some(100u8)
            &&& right < 10 ==> p.right_battery == Some((10 * right + 5) as u8)
            &&& right > 10 ==> p.right_battery is None
        }),
{
}

/// Flipping the suffix bit that orders the buds swaps everything that is read for the left
/// and the right bud, and changes nothing else.
pub proof fn lemma_flip_swaps_buds(s: Seq<u8>)
    requires
        decodable(s),
        spec_decode(s) is Ok,
    ensures
        ({
            let t = s.update(10, s[10] ^ 0x02);
            let p = spec_decode(s)->Ok_0;
            &&& decodable(t)
            &&& spec_decode(t) matches Ok(q) && q == (ProximityPairing {
                left_battery: p.right_battery,
                right_battery: p.left_battery,
                left_charging: p.right_charging,
                right_charging: p.left_charging,
                ..p
            })
        }),
{
    let b = s[10];
    assert((b ^ 0x02u8) & 0x02u8 == 0 <==> !(b & 0x02u8 == 0)) by (bit_vector);
    let t = s.update(10, s[10] ^ 0x02);
    assert(t[10] == b ^ 0x02u8);
}

/// Decoding reads only the fixed 17-byte part and the total length: two beacons of the same
/// length that agree on their first 17 bytes decode alike.
pub proof fn lemma_decode_ignores_payload(s: Seq<u8>, t: Seq<u8>)
    requires
        decodable(s),
        s.len() == t.len(),
        s.len() >= 17,
        s.subrange(0, 17) == t.subrange(0, 17),
    ensures
        decodable(t),
        spec_decode(s) == spec_decode(t),
{
    assert forall|i: int| 0 <= i < 17 implies s[i] == t[i] by {
        assert(s[i] == s.subrange(0, 17)[i]);
        assert(t[i] == t.subrange(0, 17)[i]);
    }
}

} // verus!
