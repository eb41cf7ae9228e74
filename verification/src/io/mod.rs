//! Input/output devices and the values that flow through them.
pub mod kind;
pub mod direction;
pub mod numeric;
pub mod order;
pub mod raw;
pub mod datum;
pub mod text;
pub mod metadata;
pub mod command;
pub mod event;
pub mod data;
pub mod device;
pub mod input;
pub mod output;
pub mod device_type;
pub mod sensors;
pub mod laws;

pub use kind::{IOKind, kind_label};
pub use direction::{IODirection, direction_label};
