//! Adaptive trigger feedback for a DualSense controller driven by racing-game telemetry.
//!
//! The library holds the decisions: how telemetry and settings become trigger modes,
//! how trigger modes are laid out in an output report, and how a telemetry packet is read.
//! Sockets, HID devices, configuration files and floating-point physics live outside it.

pub mod controller;
pub mod effects;
pub mod logic;
pub mod trigger_builders;
pub mod telemetry;
pub mod utils;
