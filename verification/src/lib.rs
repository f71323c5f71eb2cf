//! Driver library for a remote LED lamp controller.
//!
//! The lamp is driven over a serial line by a compact, versioned binary
//! protocol: one discriminant byte followed by the variant's fixed-width
//! little-endian fields. This crate holds the parts with real invariants,
//! each verified against its contract:
//!
//! - [`commands`]: the closed set of command variants and their payloads;
//! - [`codec`]: the byte-exact wire encoding and its decoder;
//! - [`dispatch`]: what one send must write and whether it must await a reply;
//! - [`watch`]: the debounce state machine behind the file-watch loop.
//!
//! Everything that touches the outside world (the serial port, the
//! filesystem watcher, argument parsing, the textual command file) lives in
//! the surrounding binary, which hands this library plain values.

pub mod codec;
pub mod commands;
pub mod dispatch;
pub mod watch;

pub use commands::Command;
pub use commands::CycleHuesOptions;
pub use commands::ErrorOptions;
pub use commands::GleamOptions;
pub use commands::PulseHueOptions;
pub use commands::ShowRgbOptions;
pub use commands::StopOptions;
