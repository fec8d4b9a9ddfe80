//! Device channel types.

pub mod temperature_sensor;
