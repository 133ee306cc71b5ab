//! Force-feedback enhancer for Farming Simulator 25.
pub mod clap_lite;
pub mod config;
pub mod daemon;
pub mod device;
pub mod effects;
pub mod ffb;
pub mod gui;
pub mod logging;
pub mod manual;
pub mod ring;
pub mod shared;
pub mod telemetry;
pub mod text;
pub mod troubleshoot;
