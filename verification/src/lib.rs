//! Supervision core for flashing ESP-series microcontrollers through the
//! bundled `esptool` command-line program.
//!
//! The crate holds the decisions of the flash supervisor as verified
//! functions on plain values: which files are in scope, whether a run may
//! start, what the tool's command line is, how its output is cut into lines
//! and relayed, and how a run is cancelled. Spawning the process, reading
//! its pipes and talking to the window are left to the embedding program.

pub mod arguments;
pub mod config;
pub mod decimal;
pub mod lines;
pub mod relay;
pub mod supervisor;
