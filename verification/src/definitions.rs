//! Haptic definitions of a workspace as the SDK API serves them.
use vstd::prelude::*;
use crate::device::DevicePosition;
use crate::tact::{Float64, HapticDefinitionTactFilePattern};
use vstd::string::StringExecFns;

verus! {

/// The envelope of every SDK API response.
#[derive(Clone, Debug, PartialEq, Eq)]
pub struct SdkApiResponseV3<T> {
    pub status: bool,
    pub code: i64,
    pub error_message: Option<String>,
    pub timestamp: u64,
    pub message: Option<T>,
}

impl<T> SdkApiResponseV3<T> {
    pub fn new(
        status: bool,
        code: i64,
        error_message: Option<String>,
        timestamp: u64,
        message: Option<T>,
    ) -> (r: Self)
        ensures
            r.status == status,
            r.code == code,
            r.error_message == error_message,
            r.timestamp == timestamp,
            r.message == message,
    {
        SdkApiResponseV3 { status, code, error_message, timestamp, message }
    }
}

/// The haptic definitions of a workspace: one mapping per event.
#[derive(Clone, Debug, PartialEq, Eq)]
pub struct HapticDefinitionsMessage {
    pub id: Option<String>,
    pub create_time: Option<u64>,
    pub name: Option<String>,
    pub description: Option<String>,
    pub creator: Option<String>,
    pub workspace_id: Option<String>,
    pub version: Option<i64>,
    pub disable_validation: Option<bool>,
    pub category_options: Option<Vec<String>>,
    pub haptic_mappings: Vec<HapticDefinitionMapping>,
}

impl HapticDefinitionsMessage {
    /// Definitions made of the given mappings, with nothing else known.
    pub fn new(haptic_mappings: Vec<HapticDefinitionMapping>) -> (r: Self)
        ensures
            r.id is None,
            r.create_time is None,
            r.name is None,
            r.description is None,
            r.creator is None,
            r.workspace_id is None,
            r.version is None,
            r.disable_validation is None,
            r.category_options is None,
            r.haptic_mappings@ == haptic_mappings@,
    {
        HapticDefinitionsMessage {
            id: None,
            create_time: None,
            name: None,
            description: None,
            creator: None,
            workspace_id: None,
            version: None,
            disable_validation: None,
            category_options: None,
            haptic_mappings,
        }
    }
}

/// What plays for one event key.
#[derive(Clone, Debug, PartialEq, Eq)]
pub struct HapticDefinitionMapping {
    pub enable: Option<bool>,
    pub intensity: Option<Float64>,
    pub key: String,
    pub category: Option<String>,
    pub description: Option<String>,
    pub update_time: Option<u64>,
    pub event_time: u32,
    pub tact_file_patterns: Vec<HapticDefinitionTactFilePattern>,
    pub audio_file_patterns: Vec<HapticDefinitionAudioFilePattern>,
}

/// An audio-driven pattern for one device position.
#[derive(Clone, Debug, PartialEq, Eq)]
pub struct HapticDefinitionAudioFilePattern {
    pub pattern_id: String,
    pub snapshot_id: String,
    pub position: DevicePosition,
    pub clip: HapticDefinitionAudioFileClip,
}

/// The motor frames an audio clip was turned into, per device position (no position occurs
/// twice); each frame holds one intensity per motor.
#[derive(Clone, Debug, PartialEq, Eq)]
pub struct HapticDefinitionAudioFileClip {
    pub id: String,
    pub name: String,
    pub version: i32,
    pub duration: u32,
    pub patterns: Vec<(DevicePosition, Vec<Vec<u8>>)>,
}

/// The address of the latest haptic definitions of a workspace.
pub open spec fn spec_definitions_url(app_id: Seq<char>, api_key: Seq<char>) -> Seq<char> {
    "https://sdk-apis.bhaptics.com/api/v1/haptic-definitions/workspace-v3/latest?latest-version=-1&api-key="@
        + api_key + "&app-id="@ + app_id
}

/// The address from which the latest haptic definitions of the workspace `app_id` are
/// fetched with the key `api_key`.
pub fn haptic_definitions_url(app_id: &str, api_key: &str) -> (r: String)
    ensures
        r@ == spec_definitions_url(app_id@, api_key@),
{
    let mut url = "https://sdk-apis.bhaptics.com/api/v1/haptic-definitions/workspace-v3/latest?latest-version=-1&api-key=".to_owned();
    url.append(api_key);
    url.append("&app-id=");
    url.append(app_id);
    url
}

} // verus!
