//! The wire codec: byte-exact encoding and decoding of [`Command`] frames.
//!
//! A frame is one discriminant byte followed by the variant's payload
//! fields in declared order, each at its fixed width, integers and the
//! gleam probability word little-endian. There is no length prefix, no
//! terminator and no checksum, so the layout spelled out by [`encoding`]
//! is the whole contract with the device.

use vstd::prelude::*;

use crate::commands::Command;
use crate::commands::CycleHuesOptions;
use crate::commands::ErrorOptions;
use crate::commands::GleamOptions;
use crate::commands::PulseHueOptions;
use crate::commands::ShowRgbOptions;
use crate::commands::StopOptions;
use crate::commands::tag_of;

verus! {

/// Why a byte stream failed to decode.
#[derive(Clone, Copy, Debug, PartialEq, Eq, Structural)]
pub enum CodecError {
    /// The discriminant is not a known tag, or the stream ends before the
    /// variant's fixed-width fields do.
    MalformedEncoding,
}

/// The two little-endian bytes of a 16-bit word, least significant first.
pub open spec fn u16_le(v: u16) -> Seq<u8> {
    seq![(v % 0x100) as u8, ((v / 0x100) % 0x100) as u8]
}

/// The four little-endian bytes of a 32-bit word, least significant first.
pub open spec fn u32_le(v: u32) -> Seq<u8> {
    seq![
        (v % 0x100) as u8,
        ((v / 0x100) % 0x100) as u8,
        ((v / 0x10000) % 0x100) as u8,
        ((v / 0x1000000) % 0x100) as u8,
    ]
}

/// The 16-bit word whose little-endian bytes are `b0`, `b1`.
pub open spec fn u16_from_le(b0: u8, b1: u8) -> u16 {
    (b0 + b1 * 0x100) as u16
}

/// The 32-bit word whose little-endian bytes are `b0` through `b3`.
pub open spec fn u32_from_le(b0: u8, b1: u8, b2: u8, b3: u8) -> u32 {
    (b0 + b1 * 0x100 + b2 * 0x10000 + b3 * 0x1000000) as u32
}

/// The payload bytes of a command: its fields in declared order, each at
/// its fixed width, little-endian.
pub open spec fn payload(c: Command) -> Seq<u8> {
    match c {
        Command::Error(o) => u16_le(o.error_code),
        Command::Query => Seq::<u8>::empty(),
        Command::Stop(_) => Seq::<u8>::empty(),
        Command::CycleHues(o) => u32_le(o.period),
        Command::PulseHue(o) => u16_le(o.hue) + u32_le(o.period) + u32_le(o.wait),
        Command::ShowRgb(o) => seq![o.red, o.green, o.blue],
        Command::Gleam(o) => u32_le(o.period) + u32_le(o.frequency_bits) + u16_le(o.num_groups),
    }
}

/// The full frame of a command: discriminant byte, then payload.
pub open spec fn encoding(c: Command) -> Seq<u8> {
    seq![tag_of(c)] + payload(c)
}

/// The payload width a given discriminant announces, or `None` for an
/// unknown discriminant. A frame for tag `t` is exactly
/// `1 + payload_width(t)` bytes long.
pub open spec fn payload_width(t: u8) -> Option<int> {
    if t == 0 {
        Some(2)
    } else if t == 1 {
        Some(0)
    } else if t == 2 {
        Some(0)
    } else if t == 3 {
        Some(4)
    } else if t == 4 {
        Some(10)
    } else if t == 5 {
        Some(3)
    } else if t == 6 {
        Some(10)
    } else {
        None
    }
}

/// What a byte stream decodes to: the command whose frame is a prefix of
/// `s`, or `None` if the discriminant is unknown or the stream ends before
/// the variant's fields do. Bytes past the frame are left untouched, as a
/// stream reader would leave them.
pub open spec fn decode_spec(s: Seq<u8>) -> Option<Command> {
    if s.len() < 1 {
        None
    } else {
        let t = s[0];
        if t == 0 {
            if s.len() >= 3 {
                Some(Command::Error(ErrorOptions { error_code: u16_from_le(s[1], s[2]) }))
            } else {
                None
            }
        } else if t == 1 {
            Some(Command::Query)
        } else if t == 2 {
            Some(Command::Stop(StopOptions {}))
        } else if t == 3 {
            if s.len() >= 5 {
                Some(Command::CycleHues(CycleHuesOptions {
                    period: u32_from_le(s[1], s[2], s[3], s[4]),
                }))
            } else {
                None
            }
        } else if t == 4 {
            if s.len() >= 11 {
                Some(Command::PulseHue(PulseHueOptions {
                    hue: u16_from_le(s[1], s[2]),
                    period: u32_from_le(s[3], s[4], s[5], s[6]),
                    wait: u32_from_le(s[7], s[8], s[9], s[10]),
                }))
            } else {
                None
            }
        } else if t == 5 {
            if s.len() >= 4 {
                Some(Command::ShowRgb(ShowRgbOptions { red: s[1], green: s[2], blue: s[3] }))
            } else {
                None
            }
        } else if t == 6 {
            if s.len() >= 11 {
                Some(Command::Gleam(GleamOptions {
                    period: u32_from_le(s[1], s[2], s[3], s[4]),
                    frequency_bits: u32_from_le(s[5], s[6], s[7], s[8]),
                    num_groups: u16_from_le(s[9], s[10]),
                }))
            } else {
                None
            }
        } else {
            None
        }
    }
}

/// Append the two little-endian bytes of `v`.
fn push_u16_le(out: &mut Vec<u8>, v: u16)
    ensures
        final(out)@ == old(out)@ + u16_le(v),
{
    out.push((v % 0x100) as u8);
    out.push(((v / 0x100) % 0x100) as u8);
    proof {
        assert(out@ =~= old(out)@ + u16_le(v));
    }
}

/// Append the four little-endian bytes of `v`.
fn push_u32_le(out: &mut Vec<u8>, v: u32)
    ensures
        final(out)@ == old(out)@ + u32_le(v),
{
    out.push((v % 0x100) as u8);
    out.push(((v / 0x100) % 0x100) as u8);
    out.push(((v / 0x10000) % 0x100) as u8);
    out.push(((v / 0x1000000) % 0x100) as u8);
    proof {
        assert(out@ =~= old(out)@ + u32_le(v));
    }
}

/// Reassemble a 16-bit word from its little-endian bytes.
fn read_u16_le(b0: u8, b1: u8) -> (v: u16)
    ensures
        v == u16_from_le(b0, b1),
{
    b0 as u16 + (b1 as u16) * 0x100
}

/// Reassemble a 32-bit word from its little-endian bytes.
fn read_u32_le(b0: u8, b1: u8, b2: u8, b3: u8) -> (v: u32)
    ensures
        v == u32_from_le(b0, b1, b2, b3),
{
    b0 as u32 + (b1 as u32) * 0x100 + (b2 as u32) * 0x10000 + (b3 as u32) * 0x1000000
}

/// Splitting a 16-bit word into little-endian bytes and reassembling them
/// gives the word back.
proof fn lemma_u16_le_round_trip(v: u16)
    ensures
        u16_from_le(u16_le(v)[0], u16_le(v)[1]) == v,
{
    assert(v % 0x100 + ((v / 0x100) % 0x100) * 0x100 == v) by (bit_vector);
}

/// Splitting a 32-bit word into little-endian bytes and reassembling them
/// gives the word back.
proof fn lemma_u32_le_round_trip(v: u32)
    ensures
        u32_from_le(u32_le(v)[0], u32_le(v)[1], u32_le(v)[2], u32_le(v)[3]) == v,
{
    assert(v % 0x100 + ((v / 0x100) % 0x100) * 0x100 + ((v / 0x10000) % 0x100) * 0x10000 + ((v
        / 0x1000000) % 0x100) * 0x1000000 == v) by (bit_vector);
}

impl Command {
    /// Encode this command as its wire frame. Every command encodes: the
    /// receive-only `Error` variant has a layout too, since the decoder
    /// must read what the device sends.
    pub fn to_bincode(&self) -> (r: Vec<u8>)
        ensures
            r@ == encoding(*self),
    {
        let mut out: Vec<u8> = Vec::new();
        out.push(self.tag());
        match self {
            Command::Error(o) => {
                push_u16_le(&mut out, o.error_code);
            },
            Command::Query => {},
            Command::Stop(_) => {},
            Command::CycleHues(o) => {
                push_u32_le(&mut out, o.period);
            },
            Command::PulseHue(o) => {
                push_u16_le(&mut out, o.hue);
                push_u32_le(&mut out, o.period);
                push_u32_le(&mut out, o.wait);
            },
            Command::ShowRgb(o) => {
                out.push(o.red);
                out.push(o.green);
                out.push(o.blue);
            },
            Command::Gleam(o) => {
                push_u32_le(&mut out, o.period);
                push_u32_le(&mut out, o.frequency_bits);
                push_u16_le(&mut out, o.num_groups);
            },
        }
        proof {
            assert(out@ =~= encoding(*self));
        }
        out
    }

    /// Decode the frame at the head of `bytes`. Succeeds exactly when a
    /// known discriminant leads and the stream holds all of that variant's
    /// fixed-width fields; trailing bytes are ignored, as a stream reader
    /// would leave them unread. Fails with `MalformedEncoding` otherwise.
    pub fn from_bincode(bytes: &[u8]) -> (r: Result<Command, CodecError>)
        ensures
            match r {
                Ok(c) => decode_spec(bytes@) == Some(c),
                Err(e) => decode_spec(bytes@) is None && e == CodecError::MalformedEncoding,
            },
    {
        if bytes.len() < 1 {
            return Err(CodecError::MalformedEncoding);
        }
        let t = bytes[0];
        match t {
            0 => {
                if bytes.len() >= 3 {
                    Ok(Command::Error(ErrorOptions { error_code: read_u16_le(bytes[1], bytes[2]) }))
                } else {
                    Err(CodecError::MalformedEncoding)
                }
            },
            1 => Ok(Command::Query),
            2 => Ok(Command::Stop(StopOptions {})),
            3 => {
                if bytes.len() >= 5 {
                    Ok(Command::CycleHues(CycleHuesOptions {
                        period: read_u32_le(bytes[1], bytes[2], bytes[3], bytes[4]),
                    }))
                } else {
                    Err(CodecError::MalformedEncoding)
                }
            },
            4 => {
                if bytes.len() >= 11 {
                    Ok(Command::PulseHue(PulseHueOptions {
                        hue: read_u16_le(bytes[1], bytes[2]),
                        period: read_u32_le(bytes[3], bytes[4], bytes[5], bytes[6]),
                        wait: read_u32_le(bytes[7], bytes[8], bytes[9], bytes[10]),
                    }))
                } else {
                    Err(CodecError::MalformedEncoding)
                }
            },
            5 => {
                if bytes.len() >= 4 {
                    Ok(Command::ShowRgb(ShowRgbOptions {
                        red: bytes[1],
                        green: bytes[2],
                        blue: bytes[3],
                    }))
                } else {
                    Err(CodecError::MalformedEncoding)
                }
            },
            6 => {
                if bytes.len() >= 11 {
                    Ok(Command::Gleam(GleamOptions {
                        period: read_u32_le(bytes[1], bytes[2], bytes[3], bytes[4]),
                        frequency_bits: read_u32_le(bytes[5], bytes[6], bytes[7], bytes[8]),
                        num_groups: read_u16_le(bytes[9], bytes[10]),
                    }))
                } else {
                    Err(CodecError::MalformedEncoding)
                }
            },
            _ => Err(CodecError::MalformedEncoding),
        }
    }
}

/// Round trip: decoding a command's frame gives the command back, whatever
/// trails the frame in the stream.
pub proof fn lemma_round_trip_with_trailing(c: Command, rest: Seq<u8>)
    ensures
        decode_spec(encoding(c) + rest) == Some(c),
{
    let s = encoding(c) + rest;
    match c {
        Command::Error(o) => {
            lemma_u16_le_round_trip(o.error_code);
        },
        Command::Query => {},
        Command::Stop(_) => {},
        Command::CycleHues(o) => {
            lemma_u32_le_round_trip(o.period);
        },
        Command::PulseHue(o) => {
            lemma_u16_le_round_trip(o.hue);
            lemma_u32_le_round_trip(o.period);
            lemma_u32_le_round_trip(o.wait);
        },
        Command::ShowRgb(_) => {},
        Command::Gleam(o) => {
            lemma_u32_le_round_trip(o.period);
            lemma_u32_le_round_trip(o.frequency_bits);
            lemma_u16_le_round_trip(o.num_groups);
        },
    }
}

/// Round trip on the exact frame: `decode_spec(encoding(c)) == Some(c)`
/// for every command, so the codec loses nothing.
pub proof fn lemma_round_trip(c: Command)
    ensures
        decode_spec(encoding(c)) == Some(c),
{
    assert(encoding(c) + Seq::<u8>::empty() =~= encoding(c));
    lemma_round_trip_with_trailing(c, Seq::<u8>::empty());
}

/// Stability: a frame's length is `1 + payload_width(tag)`, fixed per
/// variant, whatever the field values hold.
pub proof fn lemma_encoding_len(c: Command)
    ensures
        payload_width(tag_of(c)) matches Some(w) && encoding(c).len() == 1 + w,
{
}

/// Rejection: a stream led by an unknown discriminant decodes to nothing,
/// whatever follows the discriminant.
pub proof fn lemma_unknown_tag_rejected(s: Seq<u8>)
    requires
        s.len() >= 1,
        payload_width(s[0]) is None,
    ensures
        decode_spec(s) is None,
{
}

/// Truncation: a stream shorter than the frame its discriminant
/// announces decodes to nothing.
pub proof fn lemma_truncated_rejected(s: Seq<u8>)
    requires
        s.len() >= 1,
        payload_width(s[0]) matches Some(w) && s.len() < 1 + w,
    ensures
        decode_spec(s) is None,
{
}

} // verus!
