//! The decision core of a file-system filter.
//!
//! The host intercepts file operations and process events and asks this
//! library what to do with them.  The library answers from the policy it
//! was given, offers a record of each answer to a bounded queue, and
//! never reads memory, waits or keeps time itself.
//!
//! - [`buffer`]: fixed-capacity byte storage.
//! - [`memory`]: checks on addresses and lengths that come from outside.
//! - [`matcher`]: search in byte strings without regard to ASCII case.
//! - [`policy`]: the patterns that block a file or mark a process.
//! - [`callbacks`]: the decision on each kind of file operation.
//! - [`process`]: the classification of new processes.
//! - [`telemetry`]: the bounded queue of records.
//! - [`pending`]: the table of decisions that were deferred.
//! - [`config`]: the fail-safe choice.
//! - [`error`], [`driver`], [`hooks`], [`request`], [`stats`]: errors and
//!   status codes, the driver's state, a callback slot, a borrowed
//!   request, and counts.

pub mod buffer;
pub mod callbacks;
pub mod config;
pub mod driver;
pub mod error;
pub mod hooks;
pub mod matcher;
pub mod memory;
pub mod pending;
pub mod policy;
pub mod process;
pub mod request;
pub mod stats;
pub mod telemetry;
