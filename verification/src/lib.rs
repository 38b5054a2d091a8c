//! Verified core of an interactive environment-setup assistant.
//!
//! The assistant checks that an environment manager is installed, inspects
//! the list of named environments, optionally recreates a fixed environment,
//! installs dependencies from a manifest, and verifies that a vendor driver
//! library is discoverable.  Every decision the assistant makes is a pure
//! function of captured text, and those functions live here with contracts;
//! the process spawning and console I/O live outside the library.

pub mod commands;
pub mod driver;
pub mod inspect;
pub mod messages;
pub mod pipeline;
pub mod prompt;
pub mod stages;
pub mod text;
