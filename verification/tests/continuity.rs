use senseshift::continuity::{
    ContinuityMessage, ContinuityMessageDiscriminants, ContinuityMessageError, ProximityPairing,
    ProximityPairingDeviceModel, ProximityPairingError,
};

#[test]
fn test_from_repr() {
    assert_eq!(
        ContinuityMessageDiscriminants::from_repr(0x7).unwrap(),
        ContinuityMessageDiscriminants::ProximityPairing
    );
}

#[test]
fn proximity_pairing_airpods_pro_2_real() {
    let bytes: &[u8] = &[
        7, 25, 1, 20, 32, 2, 240, 143, 17, 0, 9, 0, 0, 0, 0, 0, 0, 0, 0, 0, 0, 0, 0, 0, 0, 0, 0,
    ];
    assert_eq!(
        ContinuityMessage::try_from_bytes(bytes).unwrap(),
        ContinuityMessage::ProximityPairing(ProximityPairing {
            device_model: ProximityPairingDeviceModel::AirPodsPro2,
        })
    );
}

#[test]
fn proximity_pairing_airpods() {
    let bytes: &[u8] = &[
        0x07, 0x19, 0x07, 0x02, 0x20, 0x75, 0xaa, 0x30, 0x01, 0x00, 0x00, 0x45, 20, 30, 150,
        0xda, 0x29, 0x58, 0xab, 0x8d, 0x29, 0x40, 0x3d, 0x5c, 0x1b, 0x93, 0x3a,
    ];
    assert_eq!(
        ContinuityMessage::try_from_bytes(bytes).unwrap(),
        ContinuityMessage::ProximityPairing(ProximityPairing {
            device_model: ProximityPairingDeviceModel::AirPods,
        })
    );
}

#[test]
fn discriminant_repr_round_trip() {
    for v in 0u8..=255 {
        if let Some(k) = ContinuityMessageDiscriminants::from_repr(v) {
            assert_eq!(k.repr(), v);
        }
    }
    assert_eq!(ContinuityMessageDiscriminants::from_repr(0x11), None);
    assert_eq!(ContinuityMessageDiscriminants::FindMy.repr(), 0x12);
}

#[test]
fn length_mismatch_is_reported() {
    let bytes: &[u8] = &[0x07, 5, 1, 2];
    assert_eq!(
        ContinuityMessage::try_from_bytes(bytes),
        Err(ContinuityMessageError::MessageLengthMismatch { declared: 5, actual: 2 })
    );
}

#[test]
fn unknown_type_is_reported() {
    let bytes: &[u8] = &[0x11, 1, 0];
    assert_eq!(
        ContinuityMessage::try_from_bytes(bytes),
        Err(ContinuityMessageError::UnknownMessageType(0x11))
    );
}

#[test]
fn plain_kinds_decode_without_content() {
    let bytes: &[u8] = &[0x05, 2, 0, 0];
    assert_eq!(ContinuityMessage::try_from_bytes(bytes), Ok(ContinuityMessage::AirDrop));
    assert_eq!(
        ContinuityMessage::try_from_bytes(bytes).unwrap().discriminant(),
        ContinuityMessageDiscriminants::AirDrop
    );
}

#[test]
fn unknown_model_decodes_as_unknown() {
    let bytes: &[u8] = &[0x07, 3, 0, 0x34, 0x12];
    assert_eq!(
        ContinuityMessage::try_from_bytes(bytes),
        Ok(ContinuityMessage::ProximityPairing(ProximityPairing {
            device_model: ProximityPairingDeviceModel::Unknown,
        }))
    );
}

#[test]
fn pairing_rejects_other_type() {
    let bytes: &[u8] = &[0x05, 3, 0, 0, 0];
    assert_eq!(
        ProximityPairing::try_from_bytes(bytes),
        Err(ProximityPairingError::InvalidMessageType(0x05))
    );
}

#[test]
fn pairing_rejects_wrong_length() {
    let bytes: &[u8] = &[0x07, 9, 0, 0x14, 0x20];
    assert_eq!(
        ProximityPairing::try_from_bytes(bytes),
        Err(ProximityPairingError::InvalidMessageLength(9))
    );
}

#[test]
fn model_names_and_reprs() {
    assert_eq!(ProximityPairingDeviceModel::AirPodsPro2.repr(), 0x2014);
    assert_eq!(
        ProximityPairingDeviceModel::from_repr(0x2014),
        Some(ProximityPairingDeviceModel::AirPodsPro2)
    );
    assert_eq!(ProximityPairing::default().device_model, ProximityPairingDeviceModel::Unknown);
}
