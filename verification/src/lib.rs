//! Haptic device definitions, Apple Continuity beacon parsing and the
//! message and configuration logic of the SenseShift tools.

pub mod airpods;
pub mod continuity;
pub mod definitions;
pub mod json;
pub mod logging;
pub mod osc_app;
pub mod device;
pub mod path_point_mapper;
pub mod proxy_config;
pub mod sdk;
pub mod tact;
pub mod text;
pub mod tui;
