//! Core of an on-device telemetry aggregator for an embedded control-panel
//! display: background polling services feed typed events through one ordered
//! channel into a single state reducer, which folds them into the application
//! state and emits indexed commands for a registry of display slots.
//!
//! Rendering, configuration parsing, and the raw hardware reads live outside
//! this crate; they exchange plain values (readings, events, commands) with
//! the verified core defined here.

pub mod battery;
pub mod channel;
pub mod device_info;
pub mod errors;
pub mod events;
pub mod handler;
pub mod ordering;
pub mod reducer;
pub mod widgets;
