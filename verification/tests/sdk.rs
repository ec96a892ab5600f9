use senseshift::sdk::v3::client::{
    SdkMessage, SdkMessageType, SdkPlayWithStartTimeMessage, SdkRequestAuthMessage,
};
use senseshift::sdk::v3::server::ServerMessageType;
use senseshift::sdk::v4::data::SdkEncryptedMessageType as DataMessageType;
use senseshift::sdk::v4::message::{SdkEncryptedMessage, SdkEncryptedMessageType};

#[test]
fn v3_client_message_types() {
    assert_eq!(SdkMessageType::from_name("SdkPlayDotMode"), Some(SdkMessageType::SdkPlayDotMode));
    assert_eq!(SdkMessageType::from_name("SdkStopAll"), Some(SdkMessageType::SdkStopAll));
    assert_eq!(SdkMessageType::from_name("sdkstopall"), None);
    assert!(!SdkMessageType::SdkPingAll.has_payload());
    assert!(SdkMessageType::SdkStopByEventId.has_payload());
    assert_eq!(
        SdkMessage::SdkStopByEventId("e".to_string()).message_type(),
        SdkMessageType::SdkStopByEventId
    );
    let auth = SdkRequestAuthMessage::new(
        "cipher".to_string(),
        "app_id".to_string(),
        "nonce".to_string(),
        "app_hash".to_string(),
        "api_key".to_string(),
    );
    assert_eq!(auth.application_id, "app_id");
    assert_eq!(SdkMessage::SdkRequestAuth(auth).message_type(), SdkMessageType::SdkRequestAuth);
}

#[test]
fn v3_play_defaults() {
    assert_eq!(SdkPlayWithStartTimeMessage::default_start_millis(), 0);
    assert_eq!(f64::from_bits(SdkPlayWithStartTimeMessage::default_intensity().bits), 1.0);
    assert_eq!(f64::from_bits(SdkPlayWithStartTimeMessage::default_duration().bits), 1.0);
    assert_eq!(f64::from_bits(SdkPlayWithStartTimeMessage::default_offset_angle_x().bits), 0.0);
    assert_eq!(f64::from_bits(SdkPlayWithStartTimeMessage::default_offset_y().bits), 0.0);
}

#[test]
fn v3_server_message_types() {
    assert_eq!(ServerMessageType::from_name("ServerDevices"), Some(ServerMessageType::ServerDevices));
    assert_eq!(ServerMessageType::from_name("ServerUnknown"), None);
    assert!(!ServerMessageType::ServerReady.has_payload());
    assert!(ServerMessageType::ServerEventList.has_payload());
}

#[test]
fn v4_encrypted_messages() {
    let m = SdkEncryptedMessage::sdk_data("base64=".to_string());
    assert_eq!(m.message_type(), SdkEncryptedMessageType::SdkData);
    assert_eq!(m.data(), Some("base64="));
    assert_eq!(m.key(), None);
    let k = SdkEncryptedMessage::server_key("pub".to_string());
    assert_eq!(k.key(), Some("pub"));
    assert_eq!(k.data(), None);
    assert_eq!(SdkEncryptedMessage::sdk_client_key("c".to_string()).message_type(), SdkEncryptedMessageType::SdkClientKey);
    assert_eq!(SdkEncryptedMessageType::from_name("ServerKey"), Some(SdkEncryptedMessageType::ServerKey));
    assert_eq!(SdkEncryptedMessageType::from_name("Other"), None);
    assert_eq!(DataMessageType::SdkClientKey.name(), "SdkClientKey");
}
