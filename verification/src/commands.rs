//! The command model: the closed set of commands the lamp understands.
//!
//! Each variant carries a fixed-width payload; the wire discriminant of each
//! variant is given by [`tag_of`] and is stable across revisions, since every
//! deployed device parses frames by these exact tag values.

use vstd::prelude::*;

verus! {

/// Payload of the receive-only `Error` report.
#[derive(Clone, Copy, Debug, PartialEq, Eq, Structural)]
pub struct ErrorOptions {
    pub error_code: u16,
}

/// Payload of `Stop`: none.
#[derive(Clone, Copy, Debug, PartialEq, Eq, Structural)]
pub struct StopOptions {}

/// Payload of `CycleHues`.
#[derive(Clone, Copy, Debug, PartialEq, Eq, Structural)]
pub struct CycleHuesOptions {
    /// The cycle period in milliseconds.
    pub period: u32,
}

/// Payload of `PulseHue`.
#[derive(Clone, Copy, Debug, PartialEq, Eq, Structural)]
pub struct PulseHueOptions {
    /// The hue to pulse. Circles the color wheel starting at red.
    pub hue: u16,
    /// The pulse period in milliseconds.
    pub period: u32,
    /// The wait time in milliseconds between pulses.
    pub wait: u32,
}

/// Payload of `ShowRgb`.
#[derive(Clone, Copy, Debug, PartialEq, Eq, Structural)]
pub struct ShowRgbOptions {
    pub red: u8,
    pub green: u8,
    pub blue: u8,
}

/// Payload of `Gleam`.
#[derive(Clone, Copy, Debug, PartialEq, Eq, Structural)]
pub struct GleamOptions {
    /// The cycle period in milliseconds.
    pub period: u32,
    /// The probability of a pulse starting, as the bit pattern of an
    /// IEEE-754 single-precision number. The codec carries these 32 bits
    /// through unchanged; interpreting them as a fraction is the device's
    /// business, so the model keeps the raw word.
    pub frequency_bits: u32,
    /// The number of independent LED groups to use.
    pub num_groups: u16,
}

/// One command for the lamp. The wire discriminants are fixed per variant
/// (see [`tag_of`]); `Error` is only ever sent by the device.
#[derive(Clone, Copy, Debug, PartialEq, Eq, Structural)]
pub enum Command {
    /// Reported by the device when it rejects or fails a command.
    Error(ErrorOptions),
    /// Query the current command state.
    Query,
    /// Turn off the lights.
    Stop(StopOptions),
    /// Cycle through the rainbow.
    CycleHues(CycleHuesOptions),
    /// Pulse a specific hue.
    PulseHue(PulseHueOptions),
    /// Show a specific RGB color.
    ShowRgb(ShowRgbOptions),
    /// Randomly pulse groups of leds to create a gleaming effect.
    Gleam(GleamOptions),
}

/// The wire discriminant of each variant. These values are the protocol's
/// backbone: they may never be reassigned.
pub open spec fn tag_of(c: Command) -> u8 {
    match c {
        Command::Error(_) => 0,
        Command::Query => 1,
        Command::Stop(_) => 2,
        Command::CycleHues(_) => 3,
        Command::PulseHue(_) => 4,
        Command::ShowRgb(_) => 5,
        Command::Gleam(_) => 6,
    }
}

impl Command {
    /// The wire discriminant of this command.
    pub fn tag(&self) -> (t: u8)
        ensures
            t == tag_of(*self),
    {
        match self {
            Command::Error(_) => 0,
            Command::Query => 1,
            Command::Stop(_) => 2,
            Command::CycleHues(_) => 3,
            Command::PulseHue(_) => 4,
            Command::ShowRgb(_) => 5,
            Command::Gleam(_) => 6,
        }
    }
}

} // verus!
