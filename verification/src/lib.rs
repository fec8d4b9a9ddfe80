//! Bookkeeping for a Phidget temperature sensor channel.
//!
//! The native Phidget22 library owns the device and does all the talking to
//! it. What is kept here is the part a binding has to get right on its own
//! side of that boundary: how a native return code becomes a `Result`, which
//! callback contexts a sensor has handed to the native library, and what has
//! to be released, in which order, when the sensor goes away.
//!
//! Native objects appear as plain addresses (`usize`); nothing in this crate
//! dereferences one.

pub mod devices;
pub mod return_code;

pub use devices::temperature_sensor::{Action, Handler, SensorState, TemperatureSensor};
pub use return_code::{ReturnCode, EPHIDGET_OK};
