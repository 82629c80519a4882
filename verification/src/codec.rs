//! Wire codec for the backchannel and the error pipe.
//!
//! A frame is `[len, tag, payload...]` where `len` is the payload length in
//! bytes and `tag` selects the message variant. Integer payloads are 32-bit
//! values laid out least-significant byte first; both ends of the channel
//! use this codec, so the layout only has to be consistent, not native.
//! Decoding is atomic: either a whole well-formed frame is recognised or a
//! framing fault is returned, never a partial message.

use vstd::prelude::*;

use crate::messages::{MonitorMessage, ParentMessage};

verus! {

/// A frame that could not be decoded.
#[derive(Clone, Copy, Debug, PartialEq, Eq, Structural)]
pub enum FrameFault {
    /// The frame is shorter than its header and declared length demand.
    Underflow,
    /// The tag byte does not name a message, or the declared length does
    /// not fit the tag, or bytes trail the payload.
    Malformed,
}

/// The four little-endian bytes of the two's-complement image of `x`.
pub open spec fn spec_i32_bytes(x: i32) -> Seq<u8> {
    let u = x as u32;
    seq![
        (u & 0xff) as u8,
        ((u >> 8) & 0xff) as u8,
        ((u >> 16) & 0xff) as u8,
        ((u >> 24) & 0xff) as u8,
    ]
}

/// The 32-bit value read back from four little-endian bytes.
pub open spec fn spec_bytes_i32(b: Seq<u8>) -> i32
    recommends
        b.len() == 4,
{
    (((b[0] as u32) | ((b[1] as u32) << 8) | ((b[2] as u32) << 16) | ((b[3] as u32) << 24))
        as i32)
}

pub proof fn lemma_i32_bytes_round_trip(x: i32)
    ensures
        spec_bytes_i32(spec_i32_bytes(x)) == x,
{
    let u = x as u32;
    let b0 = (u & 0xff) as u8;
    let b1 = ((u >> 8) & 0xff) as u8;
    let b2 = ((u >> 16) & 0xff) as u8;
    let b3 = ((u >> 24) & 0xff) as u8;
    assert(((b0 as u32) | ((b1 as u32) << 8) | ((b2 as u32) << 16) | ((b3 as u32) << 24))
        as i32 == x) by (bit_vector)
        requires
            b0 == (x as u32 & 0xff) as u8,
            b1 == ((x as u32 >> 8) & 0xff) as u8,
            b2 == ((x as u32 >> 16) & 0xff) as u8,
            b3 == ((x as u32 >> 24) & 0xff) as u8,
    ;
}

pub proof fn lemma_i32_bytes_canonical(b: Seq<u8>)
    requires
        b.len() == 4,
    ensures
        spec_i32_bytes(spec_bytes_i32(b)) =~= b,
{
    let b0 = b[0];
    let b1 = b[1];
    let b2 = b[2];
    let b3 = b[3];
    let x = spec_bytes_i32(b);
    assert((x as u32 & 0xff) as u8 == b0 && ((x as u32 >> 8) & 0xff) as u8 == b1 && ((x as u32
        >> 16) & 0xff) as u8 == b2 && ((x as u32 >> 24) & 0xff) as u8 == b3) by (bit_vector)
        requires
            x == ((b0 as u32) | ((b1 as u32) << 8) | ((b2 as u32) << 16) | ((b3 as u32) << 24))
                as i32,
    ;
}

/// Append the four little-endian bytes of `x` to `out`.
pub fn push_i32_bytes(out: &mut Vec<u8>, x: i32)
    ensures
        final(out)@ == old(out)@ + spec_i32_bytes(x),
{
    let u = x as u32;
    out.push((u & 0xff) as u8);
    out.push(((u >> 8) & 0xff) as u8);
    out.push(((u >> 16) & 0xff) as u8);
    out.push(((u >> 24) & 0xff) as u8);
    assert(out@ =~= old(out)@ + spec_i32_bytes(x));
}

/// Read a 32-bit value from four bytes of `b` starting at `at`.
pub fn read_i32_bytes(b: &Vec<u8>, at: usize) -> (x: i32)
    requires
        at + 4 <= b.len(),
    ensures
        x == spec_bytes_i32(b@.subrange(at as int, at as int + 4)),
{
    let x = ((b[at] as u32) | ((b[at + 1] as u32) << 8) | ((b[at + 2] as u32) << 16) | ((b[at
        + 3] as u32) << 24)) as i32;
    proof {
        let s = b@.subrange(at as int, at as int + 4);
        assert(s[0] == b@[at as int] && s[1] == b@[at as int + 1] && s[2] == b@[at as int + 2]
            && s[3] == b@[at as int + 3]);
    }
    x
}

/// Encode the errno value the command writes into the error pipe when its
/// `exec` fails: exactly four bytes.
pub fn encode_errno(code: i32) -> (out: Vec<u8>)
    ensures
        out@ == spec_i32_bytes(code),
        out@.len() == 4,
{
    let mut out: Vec<u8> = Vec::new();
    push_i32_bytes(&mut out, code);
    out
}

/// Decode the four-byte errno frame of the error pipe.
pub fn decode_errno(b: &Vec<u8>) -> (code: i32)
    requires
        b@.len() == 4,
    ensures
        code == spec_bytes_i32(b@),
        spec_i32_bytes(code) == b@,
{
    proof {
        lemma_i32_bytes_canonical(b@);
        assert(b@.subrange(0, 4) =~= b@);
    }
    read_i32_bytes(b, 0)
}

/// The frame encoding a parent-to-monitor message.
pub open spec fn spec_encode_monitor(m: MonitorMessage) -> Seq<u8> {
    match m {
        MonitorMessage::ExecCommand => seq![0u8, 0u8],
        MonitorMessage::Signal(s) => seq![4u8, 1u8] + spec_i32_bytes(s),
    }
}

/// The message a parent-to-monitor frame holds, or the fault that makes it
/// no frame.
pub open spec fn spec_decode_monitor(b: Seq<u8>) -> Result<MonitorMessage, FrameFault> {
    if b.len() < 2 {
        Err(FrameFault::Underflow)
    } else if b.len() < 2 + b[0] {
        Err(FrameFault::Underflow)
    } else if b.len() != 2 + b[0] {
        Err(FrameFault::Malformed)
    } else if b[1] == 0 && b[0] == 0 {
        Ok(MonitorMessage::ExecCommand)
    } else if b[1] == 1 && b[0] == 4 {
        Ok(MonitorMessage::Signal(spec_bytes_i32(b.subrange(2, 6))))
    } else {
        Err(FrameFault::Malformed)
    }
}

/// Encode a parent-to-monitor message as one frame.
pub fn encode_monitor_message(m: &MonitorMessage) -> (out: Vec<u8>)
    ensures
        out@ == spec_encode_monitor(*m),
{
    let mut out: Vec<u8> = Vec::new();
    match m {
        MonitorMessage::ExecCommand => {
            out.push(0u8);
            out.push(0u8);
        },
        MonitorMessage::Signal(s) => {
            out.push(4u8);
            out.push(1u8);
            push_i32_bytes(&mut out, *s);
        },
    }
    assert(out@ =~= spec_encode_monitor(*m));
    out
}

/// Decode one parent-to-monitor frame; atomic, so a truncated or trailing
/// frame is a fault, never a partial message.
pub fn decode_monitor_message(b: &Vec<u8>) -> (r: Result<MonitorMessage, FrameFault>)
    ensures
        r == spec_decode_monitor(b@),
{
    if b.len() < 2 {
        return Err(FrameFault::Underflow);
    }
    let len = b[0] as usize;
    if b.len() < 2 + len {
        return Err(FrameFault::Underflow);
    }
    if b.len() != 2 + len {
        return Err(FrameFault::Malformed);
    }
    if b[1] == 0 && len == 0 {
        Ok(MonitorMessage::ExecCommand)
    } else if b[1] == 1 && len == 4 {
        Ok(MonitorMessage::Signal(read_i32_bytes(b, 2)))
    } else {
        Err(FrameFault::Malformed)
    }
}

/// Round trip: every parent-to-monitor message decodes back to itself.
pub proof fn lemma_monitor_round_trip(m: MonitorMessage)
    ensures
        spec_decode_monitor(spec_encode_monitor(m)) == Ok::<MonitorMessage, FrameFault>(m),
{
    match m {
        MonitorMessage::ExecCommand => {},
        MonitorMessage::Signal(s) => {
            let f = spec_encode_monitor(m);
            assert(f.subrange(2, 6) =~= spec_i32_bytes(s));
            lemma_i32_bytes_round_trip(s);
        },
    }
}

/// Canonical frames: a frame that decodes is exactly the encoding of what
/// it decodes to, so the codec admits no second spelling of a message.
pub proof fn lemma_monitor_canonical(b: Seq<u8>, m: MonitorMessage)
    requires
        spec_decode_monitor(b) == Ok::<MonitorMessage, FrameFault>(m),
    ensures
        spec_encode_monitor(m) =~= b,
{
    if b[1] == 1 && b[0] == 4 {
        lemma_i32_bytes_canonical(b.subrange(2, 6));
        assert(spec_encode_monitor(m) =~= b);
    }
}

/// The frame encoding a monitor-to-parent message.
pub open spec fn spec_encode_parent(m: ParentMessage) -> Seq<u8> {
    match m {
        ParentMessage::CommandPid(v) => seq![4u8, 0u8] + spec_i32_bytes(v),
        ParentMessage::CommandExit(v) => seq![4u8, 1u8] + spec_i32_bytes(v),
        ParentMessage::CommandSignal(v) => seq![4u8, 2u8] + spec_i32_bytes(v),
        ParentMessage::CommandStatus(v) => seq![4u8, 3u8] + spec_i32_bytes(v),
        ParentMessage::IoError(v) => seq![4u8, 4u8] + spec_i32_bytes(v),
        ParentMessage::ShortRead => seq![0u8, 5u8],
    }
}

/// The message a monitor-to-parent frame holds, or the fault that makes it
/// no frame.
pub open spec fn spec_decode_parent(b: Seq<u8>) -> Result<ParentMessage, FrameFault> {
    if b.len() < 2 {
        Err(FrameFault::Underflow)
    } else if b.len() < 2 + b[0] {
        Err(FrameFault::Underflow)
    } else if b.len() != 2 + b[0] {
        Err(FrameFault::Malformed)
    } else if b[1] == 5 && b[0] == 0 {
        Ok(ParentMessage::ShortRead)
    } else if b[0] == 4 && b[1] <= 4 {
        let v = spec_bytes_i32(b.subrange(2, 6));
        if b[1] == 0 {
            Ok(ParentMessage::CommandPid(v))
        } else if b[1] == 1 {
            Ok(ParentMessage::CommandExit(v))
        } else if b[1] == 2 {
            Ok(ParentMessage::CommandSignal(v))
        } else if b[1] == 3 {
            Ok(ParentMessage::CommandStatus(v))
        } else {
            Ok(ParentMessage::IoError(v))
        }
    } else {
        Err(FrameFault::Malformed)
    }
}

/// Encode a monitor-to-parent message as one frame.
pub fn encode_parent_message(m: &ParentMessage) -> (out: Vec<u8>)
    ensures
        out@ == spec_encode_parent(*m),
{
    let mut out: Vec<u8> = Vec::new();
    match m {
        ParentMessage::CommandPid(v) => {
            out.push(4u8);
            out.push(0u8);
            push_i32_bytes(&mut out, *v);
        },
        ParentMessage::CommandExit(v) => {
            out.push(4u8);
            out.push(1u8);
            push_i32_bytes(&mut out, *v);
        },
        ParentMessage::CommandSignal(v) => {
            out.push(4u8);
            out.push(2u8);
            push_i32_bytes(&mut out, *v);
        },
        ParentMessage::CommandStatus(v) => {
            out.push(4u8);
            out.push(3u8);
            push_i32_bytes(&mut out, *v);
        },
        ParentMessage::IoError(v) => {
            out.push(4u8);
            out.push(4u8);
            push_i32_bytes(&mut out, *v);
        },
        ParentMessage::ShortRead => {
            out.push(0u8);
            out.push(5u8);
        },
    }
    assert(out@ =~= spec_encode_parent(*m));
    out
}

/// Decode one monitor-to-parent frame; atomic as for the other direction.
pub fn decode_parent_message(b: &Vec<u8>) -> (r: Result<ParentMessage, FrameFault>)
    ensures
        r == spec_decode_parent(b@),
{
    if b.len() < 2 {
        return Err(FrameFault::Underflow);
    }
    let len = b[0] as usize;
    if b.len() < 2 + len {
        return Err(FrameFault::Underflow);
    }
    if b.len() != 2 + len {
        return Err(FrameFault::Malformed);
    }
    if b[1] == 5 && len == 0 {
        return Ok(ParentMessage::ShortRead);
    }
    if len == 4 && b[1] <= 4 {
        let v = read_i32_bytes(b, 2);
        if b[1] == 0 {
            Ok(ParentMessage::CommandPid(v))
        } else if b[1] == 1 {
            Ok(ParentMessage::CommandExit(v))
        } else if b[1] == 2 {
            Ok(ParentMessage::CommandSignal(v))
        } else if b[1] == 3 {
            Ok(ParentMessage::CommandStatus(v))
        } else {
            Ok(ParentMessage::IoError(v))
        }
    } else {
        Err(FrameFault::Malformed)
    }
}

/// Round trip: every monitor-to-parent message decodes back to itself.
pub proof fn lemma_parent_round_trip(m: ParentMessage)
    ensures
        spec_decode_parent(spec_encode_parent(m)) == Ok::<ParentMessage, FrameFault>(m),
{
    let f = spec_encode_parent(m);
    match m {
        ParentMessage::ShortRead => {},
        ParentMessage::CommandPid(v) => {
            assert(f.subrange(2, 6) =~= spec_i32_bytes(v));
            lemma_i32_bytes_round_trip(v);
        },
        ParentMessage::CommandExit(v) => {
            assert(f.subrange(2, 6) =~= spec_i32_bytes(v));
            lemma_i32_bytes_round_trip(v);
        },
        ParentMessage::CommandSignal(v) => {
            assert(f.subrange(2, 6) =~= spec_i32_bytes(v));
            lemma_i32_bytes_round_trip(v);
        },
        ParentMessage::CommandStatus(v) => {
            assert(f.subrange(2, 6) =~= spec_i32_bytes(v));
            lemma_i32_bytes_round_trip(v);
        },
        ParentMessage::IoError(v) => {
            assert(f.subrange(2, 6) =~= spec_i32_bytes(v));
            lemma_i32_bytes_round_trip(v);
        },
    }
}

/// Canonical frames, monitor-to-parent direction.
pub proof fn lemma_parent_canonical(b: Seq<u8>, m: ParentMessage)
    requires
        spec_decode_parent(b) == Ok::<ParentMessage, FrameFault>(m),
    ensures
        spec_encode_parent(m) =~= b,
{
    if b[0] == 4 && b[1] <= 4 {
        lemma_i32_bytes_canonical(b.subrange(2, 6));
        assert(spec_encode_parent(m) =~= b);
    }
}

/// How many payload bytes follow a frame's two header bytes: the reader
/// first takes the header, then exactly this many more.
pub fn frame_payload_len(len_byte: u8) -> (n: usize)
    ensures
        n == len_byte,
{
    len_byte as usize
}

} // verus!
