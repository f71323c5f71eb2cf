//! The dispatch engine's decisions: what one send must put on the wire,
//! and whether it must then await a reply.
//!
//! The serial port itself is unverified plumbing. It asks this module for
//! a [`SendPlan`], writes the frame, and, exactly when the plan says so,
//! reads one response frame back: first the discriminant byte, then the
//! [`payload_len`] bytes that discriminant announces, and hands the whole
//! frame to [`Command::from_bincode`].

use vstd::prelude::*;

use crate::codec::encoding;
use crate::codec::payload_width;
use crate::commands::Command;

verus! {

/// Everything the transport needs for one send.
pub struct SendPlan {
    /// The exact bytes to write: the command's wire frame.
    pub frame: Vec<u8>,
    /// Whether one encoded response must be read back after the write.
    pub expect_response: bool,
}

/// Plan one send: always the command's frame, and a response to await
/// exactly when the command is `Query`.
pub fn plan_send(c: &Command) -> (p: SendPlan)
    ensures
        p.frame@ == encoding(*c),
        p.expect_response <==> *c is Query,
{
    let frame = c.to_bincode();
    let expect_response = match c {
        Command::Query => true,
        _ => false,
    };
    SendPlan { frame, expect_response }
}

/// How many payload bytes follow a response's discriminant byte, or
/// `None` for an unknown discriminant — in which case nothing further
/// should be read from the wire.
pub fn payload_len(tag: u8) -> (r: Option<usize>)
    ensures
        match r {
            Some(n) => payload_width(tag) == Some(n as int),
            None => payload_width(tag) is None,
        },
{
    match tag {
        0 => Some(2),
        1 => Some(0),
        2 => Some(0),
        3 => Some(4),
        4 => Some(10),
        5 => Some(3),
        6 => Some(10),
        _ => None,
    }
}

} // verus!
