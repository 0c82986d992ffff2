//! Error taxonomy of the sensor hub.
//!
//! Every surfaced error carries the sensor or bus id where one applies, and
//! a human-readable reason. The variants mirror the propagation policy:
//! transport, identity, configuration, lifecycle, protocol and service
//! failures are kept apart so callers can react per kind.

use vstd::prelude::*;

verus! {

/// Failure of one register-bus transaction.
#[derive(Debug, Clone, PartialEq, Eq)]
pub struct I2CError {
    /// Human-readable description of the underlying transport failure.
    pub detail: String,
}

/// Errors raised by drivers and buses while operating a sensor.
#[derive(Debug, Clone, PartialEq, Eq)]
pub enum SensorError {
    /// Register-bus transaction failed.
    I2cError(I2CError),
    /// Serial transport failed.
    SerialError(String),
    /// Telemetry-protocol failure on the serial stream.
    MavlinkError(String),
    /// A sensor failed to initialise.
    InitError { sensor: String, reason: String },
    /// A sensor read failed.
    ReadError { sensor: String, reason: String },
    /// A sensor's configuration is invalid.
    ConfigError { sensor: String, reason: String },
    /// A sensor returned data that cannot be used.
    DataError { sensor: String, reason: String },
    /// A sensor's calibration block could not be loaded.
    CalibrationError { sensor: String, reason: String },
    /// The named driver is not known to the registry.
    UnsupportedDriver { driver: String },
    /// The named bus is not present in the bus map.
    BusNotFound { bus: String },
    /// A bus transaction timed out.
    BusTimeout { bus: String, timeout_ms: u64 },
    /// The chip-identity register held an unexpected value.
    WrongChipId { sensor: String, expected: u8, actual: u8 },
}

/// Errors raised while loading or validating configuration.
#[derive(Debug, Clone, PartialEq, Eq)]
pub enum ConfigError {
    /// A configuration file could not be read.
    LoadError { path: String, reason: String },
    /// A configuration file could not be parsed.
    FormatError(String),
    /// A required field is absent.
    MissingField { field: String },
    /// A field holds a value outside its allowed range.
    InvalidValue { field: String, reason: String },
    /// The configuration as a whole is inconsistent.
    ValidationError(String),
}

/// Errors raised by the publication service.
#[derive(Debug, Clone, PartialEq, Eq)]
pub enum ServiceError {
    /// The streaming server could not start.
    ServerStartError(String),
    /// A measurement could not be published.
    PublishError { reason: String },
    /// A subscriber request was malformed.
    InvalidRequest { reason: String },
    /// A measurement could not be converted for the wire.
    ConversionError(String),
    /// A publish found no active subscribers.
    NoSubscribers,
}

/// Errors raised while composing buses and sensors from configuration.
#[derive(Debug, Clone, PartialEq, Eq)]
pub enum RegistryError {
    /// A sensor could not be registered with its bus.
    RegistrationError(SensorError),
    /// A bus could not be initialised.
    BusInitError(ConfigError),
    /// A sensor driver could not be constructed.
    DriverCreationError(SensorError),
    /// Resources could not be released.
    CleanupError { reason: String },
}

} // verus!
