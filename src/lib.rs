//! Build driver that cross-compiles a homebrew application for the Nintendo 3DS
//! and optionally uploads it to a device.
//!
//! The library holds every decision the driver makes: the toolchain check, the
//! command line, the project configuration and the argument vectors of the
//! build stages. Spawning the stages is left to the caller.

pub mod date;
pub mod toolchain;
pub mod config;
pub mod cli;
pub mod pipeline;
pub mod driver;
