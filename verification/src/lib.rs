//! Sensor and actuator orchestration: typed readings, device bookkeeping,
//! threshold actions and scheduled routines, with their behaviour stated as
//! Verus contracts.
pub mod io;
pub mod errors;
pub mod container;
pub mod device;
pub mod builders;
pub mod action;
