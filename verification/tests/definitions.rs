use senseshift::definitions::{haptic_definitions_url, HapticDefinitionsMessage, SdkApiResponseV3};

#[test]
fn definitions_url() {
    assert_eq!(
        haptic_definitions_url("my-app", "my-key"),
        "https://sdk-apis.bhaptics.com/api/v1/haptic-definitions/workspace-v3/latest?latest-version=-1&api-key=my-key&app-id=my-app"
    );
}

#[test]
fn definitions_message_new() {
    let m = HapticDefinitionsMessage::new(vec![]);
    assert!(m.id.is_none() && m.version.is_none() && m.haptic_mappings.is_empty());
    let r = SdkApiResponseV3::new(true, 200, None, 42, Some(m.clone()));
    assert!(r.status);
    assert_eq!(r.code, 200);
    assert_eq!(r.timestamp, 42);
    assert_eq!(r.message, Some(m));
}
