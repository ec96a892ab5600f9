//! Messages of the bHaptics SDK protocols, versions 2 to 4.
pub mod v2;
pub mod v3;
pub mod v4;
