//! Perform actions based on sensor data.
pub mod trigger;
pub mod routine;
pub mod threshold;
pub mod commands;
pub mod subscribers;
pub mod notifier;
pub mod pid;
