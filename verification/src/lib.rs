//! Core logic of a self-updating launcher executable.
//!
//! The library decides whether a newer build exists on a remote
//! distribution point, models the incremental download of the new binary
//! with byte-level progress accounting, plans the platform-appropriate
//! replacement of the running executable, and drives the relaunch of the
//! process with the original arguments. All network, filesystem and
//! process work is performed by the surrounding application; this crate
//! holds the decisions and the data, each with a proved contract.

pub mod download;
pub mod errors;
pub mod platform;
pub mod progress;
pub mod relaunch;
pub mod replace;
pub mod urls;
pub mod version;
