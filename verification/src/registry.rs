//! Composition rules: how bus entries become bus actions, which sensor
//! entries the registry constructs locally, which ports the serial
//! auto-detection may probe, and how it backs off between rounds.
//!
//! The registry's work is laced with I/O — opening device nodes, probing
//! ports, waiting out the detection grace period — so the unverified
//! edge runs the loops; every decision they take is a function here.

use vstd::prelude::*;
use crate::config::{BusEntry, BusType};
use crate::errors::{ConfigError, RegistryError};
use crate::strutil;

verus! {

/// The action one bus entry asks of the registry.
#[derive(Debug, Clone, PartialEq, Eq)]
pub enum BusPlan {
    /// Open the register bus at the given path under the given id.
    RegisterBus { id: String, path: String },
    /// Open the serial bus at the given path under the given id.
    SerialFixed { id: String, path: String },
    /// Enumerate and probe ports until a flight controller is found,
    /// then open it under the given id.
    SerialAuto { id: String },
}

/// The word that requests serial auto-detection in a bus entry's path,
/// once surrounding whitespace is ignored.
pub open spec fn spec_requests_auto(path: Seq<char>) -> bool {
    strutil::spec_trimmed(path) == "auto"@
}

/// Decide what a bus entry asks for: a register bus opens its path, a
/// serial bus opens its path or auto-detects when the trimmed path is
/// the word `auto`, and an unknown type word is a validation error.
pub fn plan_bus(entry: &BusEntry) -> (r: Result<BusPlan, RegistryError>)
    ensures
        strutil::lower_scalars(entry.bus_type@) == strutil::lower_scalars("i2c"@) ==> (r matches Ok(
            BusPlan::RegisterBus { id, path },
        ) && id@ == entry.id@ && path@ == entry.path@),
        strutil::lower_scalars(entry.bus_type@) == strutil::lower_scalars("serial"@)
            && spec_requests_auto(entry.path@) ==> (r matches Ok(BusPlan::SerialAuto { id }) && id@
            == entry.id@),
        strutil::lower_scalars(entry.bus_type@) == strutil::lower_scalars("serial"@)
            && !spec_requests_auto(entry.path@) ==> (r matches Ok(
            BusPlan::SerialFixed { id, path },
        ) && id@ == entry.id@ && path@ == entry.path@),
        strutil::lower_scalars(entry.bus_type@) != strutil::lower_scalars("i2c"@)
            && strutil::lower_scalars(entry.bus_type@) != strutil::lower_scalars("serial"@) ==> (
        r matches Err(RegistryError::BusInitError(ConfigError::ValidationError(_)))),
{
    match BusType::from_str(entry.bus_type.as_str()) {
        Some(BusType::I2C) => Ok(
            BusPlan::RegisterBus { id: entry.id.clone(), path: entry.path.clone() },
        ),
        Some(BusType::Serial) => {
            if strutil::str_eq(strutil::trim_ascii(entry.path.as_str()), "auto") {
                Ok(BusPlan::SerialAuto { id: entry.id.clone() })
            } else {
                Ok(BusPlan::SerialFixed { id: entry.id.clone(), path: entry.path.clone() })
            }
        },
        None => Err(
            RegistryError::BusInitError(
                ConfigError::ValidationError(String::from_str("unknown bus type")),
            ),
        ),
    }
}

/// The driver-name prefix that marks a sensor entry as telemetry-fed
/// rather than locally constructed.
pub open spec fn spec_is_local_driver(driver: Seq<char>) -> bool {
    !strutil::is_prefix_of("mavlink_"@, driver)
}

/// Decide whether a sensor entry is constructed locally: exactly those
/// whose driver name does not begin with `mavlink_`.
pub fn is_local_driver(driver: &str) -> (r: bool)
    ensures
        r == spec_is_local_driver(driver@),
{
    !strutil::starts_with(driver, "mavlink_")
}

/// The first auto-detection retry delay, in milliseconds.
pub const INITIAL_BACKOFF_MS: u64 = 100;

/// The auto-detection retry delay cap, in milliseconds.
pub const MAX_BACKOFF_MS: u64 = 2000;

/// The delay after a failed detection round: the current delay doubled,
/// capped.
pub open spec fn spec_next_backoff(ms: u64) -> u64
    recommends
        ms <= MAX_BACKOFF_MS,
{
    if 2 * ms <= MAX_BACKOFF_MS {
        (2 * ms) as u64
    } else {
        MAX_BACKOFF_MS
    }
}

/// Double the detection retry delay, capped.
pub fn next_backoff(ms: u64) -> (r: u64)
    requires
        ms <= MAX_BACKOFF_MS,
    ensures
        r == spec_next_backoff(ms),
{
    if 2 * ms <= MAX_BACKOFF_MS {
        2 * ms
    } else {
        MAX_BACKOFF_MS
    }
}

/// The delay before retry `attempt` of auto-detection (counted from 0).
pub open spec fn spec_backoff_delay(attempt: nat) -> u64
    decreases attempt,
{
    if attempt == 0 {
        INITIAL_BACKOFF_MS
    } else {
        spec_next_backoff(spec_backoff_delay((attempt - 1) as nat))
    }
}

/// The auto-detection schedule: delays double from 100 ms and then hold
/// at the 2000 ms cap.
pub proof fn lemma_backoff_schedule(attempt: nat)
    ensures
        spec_backoff_delay(0) == 100,
        spec_backoff_delay(1) == 200,
        spec_backoff_delay(2) == 400,
        spec_backoff_delay(3) == 800,
        spec_backoff_delay(4) == 1600,
        attempt >= 5 ==> spec_backoff_delay(attempt) == 2000,
    decreases attempt,
{
    reveal_with_fuel(spec_backoff_delay, 7);
    if attempt >= 6 {
        lemma_backoff_schedule((attempt - 1) as nat);
    }
}

/// True for a port name the auto-detection may probe: names of the
/// wireless pairing device class and of the debug console are excluded.
pub open spec fn spec_is_candidate_port(name: Seq<char>) -> bool {
    !strutil::contains_seq(name, "Bluetooth"@) && !strutil::contains_seq(name, "debug-console"@)
}

/// Decide whether a port may be probed.
pub fn is_candidate_port(name: &str) -> (r: bool)
    ensures
        r == spec_is_candidate_port(name@),
{
    !strutil::contains_str(name, "Bluetooth") && !strutil::contains_str(name, "debug-console")
}

/// The candidate ports among an enumeration, in order.
pub open spec fn spec_candidate_ports(names: Seq<String>) -> Seq<String>
    decreases names.len(),
{
    if names.len() == 0 {
        Seq::empty()
    } else {
        spec_candidate_ports(names.drop_last()) + (if spec_is_candidate_port(names.last()@) {
            seq![names.last()]
        } else {
            Seq::empty()
        })
    }
}

/// Filter an enumeration of port names down to the candidates, keeping
/// their order.
pub fn filter_candidate_ports(names: &Vec<String>) -> (r: Vec<String>)
    ensures
        r@ == spec_candidate_ports(names@),
{
    let mut r: Vec<String> = Vec::new();
    let mut i: usize = 0;
    while i < names.len()
        invariant
            i <= names@.len(),
            r@ == spec_candidate_ports(names@.take(i as int)),
        decreases names@.len() - i,
    {
        proof {
            assert(names@.take(i + 1).drop_last() =~= names@.take(i as int));
            assert(names@.take(i + 1).last() == names@[i as int]);
        }
        if is_candidate_port(names[i].as_str()) {
            r.push(names[i].clone());
        }
        i = i + 1;
    }
    proof {
        assert(names@.take(names@.len() as int) =~= names@);
    }
    r
}

} // verus!
