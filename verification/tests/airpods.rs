use senseshift::airpods::{
    decode_battery_level, ProximityPairing, ProximityPairingDeviceColor,
    ProximityPairingDeviceModel, ProximityPairingError,
};

#[test]
fn decodes_airpods_beacon() {
    let bytes: &[u8] = &[
        0x07, 0x19, 0x07, 0x02, 0x20, 0x75, 0xaa, 0x30, 0x01, 0x00, 0x00, 0x45, 20, 30, 150,
        0xda, 0x29, 0x58, 0xab, 0x8d, 0x29, 0x40, 0x3d, 0x5c, 0x1b, 0x93, 0x3a,
    ];
    let decoded = ProximityPairing::try_from_bytes(bytes).unwrap();
    assert_eq!(decoded.device_model, ProximityPairingDeviceModel::AirPods);
    assert_eq!(decoded.device_color, ProximityPairingDeviceColor::White);
    assert_eq!(decoded.left_battery, None);
    assert_eq!(decoded.right_battery, None);
    assert_eq!(decoded.case_battery, None);
    // 150 = 0b1001_0110 with the bud order flipped
    assert!(decoded.left_charging);
    assert!(!decoded.right_charging);
    assert!(decoded.case_charging);
}

#[test]
fn decodes_batteries_and_bud_order() {
    let mut bytes = [0u8; 27];
    bytes[0] = 0x07;
    bytes[1] = 25;
    bytes[3] = 0x14;
    bytes[4] = 0x20;
    bytes[9] = 0x01;
    bytes[12] = 3;
    bytes[13] = 10;
    bytes[14] = 0b001;
    bytes[15] = 15;

    // Suffix bit 1 clear: the buds are flipped.
    bytes[10] = 0x00;
    let flipped = ProximityPairing::try_from_bytes(&bytes).unwrap();
    assert_eq!(flipped.device_model, ProximityPairingDeviceModel::AirPodsPro2);
    assert_eq!(flipped.device_color, ProximityPairingDeviceColor::Black);
    assert_eq!(flipped.left_battery, Some(35));
    assert_eq!(flipped.right_battery, Some(100));
    assert_eq!(flipped.case_battery, None);
    assert!(!flipped.left_charging);
    assert!(flipped.right_charging);
    assert!(!flipped.case_charging);

    // Suffix bit 1 set: the buds are in order.
    bytes[10] = 0x02;
    let ordered = ProximityPairing::try_from_bytes(&bytes).unwrap();
    assert_eq!(ordered.left_battery, Some(100));
    assert_eq!(ordered.right_battery, Some(35));
    assert!(ordered.left_charging);
    assert!(!ordered.right_charging);
}

#[test]
fn unknown_color_and_model_fall_back() {
    let mut bytes = [0u8; 17];
    bytes[0] = 0x07;
    bytes[1] = 15;
    bytes[3] = 0xff;
    bytes[4] = 0xff;
    bytes[9] = 0xee;
    let decoded = ProximityPairing::try_from_bytes(&bytes).unwrap();
    assert_eq!(decoded.device_model, ProximityPairingDeviceModel::Unknown);
    assert_eq!(decoded.device_color, ProximityPairingDeviceColor::White);
}

#[test]
fn rejects_other_message_types() {
    assert_eq!(
        ProximityPairing::try_from_bytes(&[0x10, 0x01, 0x00]),
        Err(ProximityPairingError::InvalidMessageType(0x10))
    );
}

#[test]
fn rejects_wrong_length() {
    assert_eq!(
        ProximityPairing::try_from_bytes(&[0x07, 0x05, 0x00]),
        Err(ProximityPairingError::InvalidMessageLength(0x05))
    );
}

#[test]
fn battery_levels() {
    assert_eq!(decode_battery_level(0), Some(5));
    assert_eq!(decode_battery_level(9), Some(95));
    assert_eq!(decode_battery_level(10), Some(100));
    assert_eq!(decode_battery_level(11), None);
    assert_eq!(decode_battery_level(15), None);
}

#[test]
fn default_and_names() {
    let d = ProximityPairing::default();
    assert_eq!(d.device_model, ProximityPairingDeviceModel::Unknown);
    assert_eq!(d.left_battery, None);
    assert_eq!(ProximityPairingDeviceModel::AirPodsPro2.name(), "AirPods Pro 2");
    assert_eq!(ProximityPairingDeviceColor::Gold.repr(), 0x07);
    assert_eq!(
        ProximityPairingDeviceColor::from_repr(0x0c),
        Some(ProximityPairingDeviceColor::Yellow)
    );
}
