//! Verified core of a sensor-hub daemon.
//!
//! The crate normalises raw sensor output from register-addressed buses and
//! a framed flight-controller telemetry stream into one typed measurement
//! schema, stamps each measurement with timing metadata, and fans the
//! result out to subscribers with bounded buffering.

pub mod bus_i2c;
pub mod clock;
pub mod codec;
pub mod config;
pub mod drivers;
pub mod errors;
pub mod fixed;
pub mod frame;
pub mod hub;
pub mod mavlink;
pub mod messages;
pub mod registry;
pub mod scheduler;
pub mod strutil;
