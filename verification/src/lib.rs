//! Supervisor daemon core for a handheld game console: the process lifecycle
//! state machine, input gesture recognition, power policy decisions, and the
//! persisted settings record, all stated and proved here. The surrounding
//! process (spawning children, signals, file and hardware access) acts on the
//! `Action` values this library returns.

pub mod codec;
pub mod daemon;
pub mod game;
pub mod input;
pub mod state;

use vstd::prelude::*;

verus! {

/// Largest timestamp the daemon records: 9999-12-31 23:59:59 UTC, in seconds
/// since the Unix epoch. Keeps every stored time printable as a date.
pub const MAX_TIMESTAMP: i64 = 253_402_300_799;

/// Battery percentage at or below which the daemon shuts the device down
/// when it is not charging.
pub const BATTERY_SHUTDOWN_THRESHOLD: u8 = 5;

} // verus!
