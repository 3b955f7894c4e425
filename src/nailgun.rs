//! Frames of the nailgun protocol: a 4-byte big-endian payload length, a
//! 1-byte chunk type, then the payload.
use vstd::prelude::*;
use vstd::utf8::encode_utf8;

verus! {

/// The length of a frame's header: payload length and chunk type.
pub const HEADER_SIZE: usize = 5;

/// A chunk that the client sends to the server.
pub enum InputChunk {
    Argument(String),
    Environment { key: String, val: String },
    WorkingDir(String),
    Command(String),
    Heartbeat,
    Stdin(Vec<u8>),
    StdinEOF,
}

/// A chunk that the server sends to the client.
#[derive(Debug, Clone, PartialEq, Eq)]
pub enum OutputChunk {
    StartReadingStdin,
    Stdout(Vec<u8>),
    Stderr(Vec<u8>),
    Exit(i32),
}

/// What goes wrong with a frame.
#[derive(Debug, Clone, Copy, PartialEq, Eq, Structural)]
pub enum CodecError {
    /// The payload does not fit a 4-byte length.
    PayloadTooLong,
    /// The server sent a chunk type that the client does not know.
    UnknownChunk(u8),
}

/// `n` as four bytes, most significant first.
pub open spec fn be32(n: nat) -> Seq<u8> {
    seq![
        (n / 0x1000000 % 0x100) as u8,
        (n / 0x10000 % 0x100) as u8,
        (n / 0x100 % 0x100) as u8,
        (n % 0x100) as u8,
    ]
}

/// The number that four bytes give, most significant first.
pub open spec fn be32_value(b: Seq<u8>) -> nat {
    b[0] as nat * 0x1000000 + b[1] as nat * 0x10000 + b[2] as nat * 0x100 + b[3] as nat
}

/// The type byte and payload of an input chunk.
pub open spec fn chunk_parts(c: InputChunk) -> (u8, Seq<u8>) {
    match c {
        InputChunk::Argument(a) => (0x41u8, encode_utf8(a@)),
        InputChunk::Environment { key, val } => (0x45u8, encode_utf8(key@) + seq![0x3du8] + encode_utf8(val@)),
        InputChunk::WorkingDir(d) => (0x44u8, encode_utf8(d@)),
        InputChunk::Command(c) => (0x43u8, encode_utf8(c@)),
        InputChunk::Heartbeat => (0x48u8, Seq::empty()),
        InputChunk::Stdin(b) => (0x30u8, b@),
        InputChunk::StdinEOF => (0x2eu8, Seq::empty()),
    }
}

/// The frame of an input chunk.
pub open spec fn frame(c: InputChunk) -> Seq<u8> {
    be32(chunk_parts(c).1.len()) + seq![chunk_parts(c).0] + chunk_parts(c).1
}

/// The type byte (`A`, `E`, `D`, `C`, `H`, `0`, `.`) and payload of `msg`.
fn parts(msg: &InputChunk) -> (r: (u8, Vec<u8>))
    ensures
        r.0 == chunk_parts(*msg).0,
        r.1@ == chunk_parts(*msg).1,
{
    match msg {
        InputChunk::Argument(a) => (0x41u8, a.as_str().as_bytes_vec()),
        InputChunk::Environment { key, val } => {
            let mut p = key.as_str().as_bytes_vec();
            p.push(0x3du8);
            let v = val.as_str().as_bytes_vec();
            p.extend_from_slice(v.as_slice());
            (0x45u8, p)
        },
        InputChunk::WorkingDir(d) => (0x44u8, d.as_str().as_bytes_vec()),
        InputChunk::Command(c) => (0x43u8, c.as_str().as_bytes_vec()),
        InputChunk::Heartbeat => (0x48u8, Vec::new()),
        InputChunk::Stdin(b) => (0x30u8, b.clone()),
        InputChunk::StdinEOF => (0x2eu8, Vec::new()),
    }
}

/// Appends the frame of `msg` to `buf`; a payload of 2^32 bytes or more is
/// refused and `buf` is left as it was.
pub fn encode(msg: &InputChunk, buf: &mut Vec<u8>) -> (r: Result<(), CodecError>)
    ensures
        chunk_parts(*msg).1.len() <= u32::MAX ==> r == Ok::<(), CodecError>(())
            && final(buf)@ == old(buf)@ + frame(*msg),
        chunk_parts(*msg).1.len() > u32::MAX ==> r == Err::<(), CodecError>(
            CodecError::PayloadTooLong,
        ) && final(buf)@ == old(buf)@,
{
    let (kind, payload) = parts(msg);
    let n = payload.len();
    if n as u64 > u32::MAX as u64 {
        return Err(CodecError::PayloadTooLong);
    }
    let n = n as u32;
    buf.push((n / 0x1000000 % 0x100) as u8);
    buf.push((n / 0x10000 % 0x100) as u8);
    buf.push((n / 0x100 % 0x100) as u8);
    buf.push((n % 0x100) as u8);
    buf.push(kind);
    buf.extend_from_slice(payload.as_slice());
    proof {
        assert(buf@ =~= old(buf)@ + frame(*msg));
    }
    Ok(())
}

/// The output chunk of type `kind` with `payload`, if the type is known.
pub open spec fn output_chunk_ok(kind: u8, payload: Seq<u8>, c: OutputChunk) -> bool {
    if kind == 0x58u8 {
        c == OutputChunk::Exit(0)
    } else if kind == 0x31u8 {
        c matches OutputChunk::Stdout(p) && p@ == payload
    } else if kind == 0x32u8 {
        c matches OutputChunk::Stderr(p) && p@ == payload
    } else if kind == 0x53u8 {
        c == OutputChunk::StartReadingStdin
    } else {
        false
    }
}

pub open spec fn known_output_kind(kind: u8) -> bool {
    kind == 0x58u8 || kind == 0x31u8 || kind == 0x32u8 || kind == 0x53u8
}

/// Whether `b` starts with a whole frame.
pub open spec fn frame_complete(b: Seq<u8>) -> bool {
    b.len() >= HEADER_SIZE && b.len() - HEADER_SIZE >= be32_value(b)
}

/// Takes the first frame off `buf` when it is whole: `X` (exit), `1`
/// (stdout), `2` (stderr) or `S` (start reading stdin); a frame of another
/// type is taken off too, and reported. When the frame is not whole yet,
/// nothing is taken.
pub fn decode(buf: &mut Vec<u8>) -> (r: Result<Option<OutputChunk>, CodecError>)
    ensures
        !frame_complete(old(buf)@) ==> r == Ok::<Option<OutputChunk>, CodecError>(None)
            && final(buf)@ == old(buf)@,
        frame_complete(old(buf)@) ==> ({
            let b = old(buf)@;
            let end = HEADER_SIZE + be32_value(b);
            &&& final(buf)@ == b.subrange(end as int, b.len() as int)
            &&& known_output_kind(b[4]) ==> (r matches Ok(Some(c)) && output_chunk_ok(
                b[4],
                b.subrange(HEADER_SIZE as int, end as int),
                c,
            ))
            &&& !known_output_kind(b[4]) ==> r == Err::<Option<OutputChunk>, CodecError>(
                CodecError::UnknownChunk(b[4]),
            )
        }),
{
    if buf.len() < HEADER_SIZE {
        return Ok(None);
    }
    let length: u64 = (buf[0] as u64) * 0x1000000 + (buf[1] as u64) * 0x10000 + (buf[2] as u64) * 0x100
        + (buf[3] as u64);
    let avail = (buf.len() - HEADER_SIZE) as u64;
    if avail < length {
        return Ok(None);
    }
    let end = HEADER_SIZE + length as usize;
    let kind = buf[4];
    let rest = buf.split_off(end);
    let mut head = rest;
    std::mem::swap(&mut head, buf);
    let payload = head.split_off(HEADER_SIZE);
    proof {
        assert(payload@ =~= old(buf)@.subrange(HEADER_SIZE as int, end as int));
    }
    if kind == 0x58u8 {
        Ok(Some(OutputChunk::Exit(0)))
    } else if kind == 0x31u8 {
        Ok(Some(OutputChunk::Stdout(payload)))
    } else if kind == 0x32u8 {
        Ok(Some(OutputChunk::Stderr(payload)))
    } else if kind == 0x53u8 {
        Ok(Some(OutputChunk::StartReadingStdin))
    } else {
        Err(CodecError::UnknownChunk(kind))
    }
}

/// The header that `encode` writes is read back by `decode` as the payload
/// length: four big-endian bytes hold any 32-bit length.
pub proof fn lemma_be32_round_trip(n: nat)
    requires
        n <= u32::MAX,
    ensures
        be32_value(be32(n)) == n,
{
    let b = be32(n);
    assert(b[0] as nat == n / 0x1000000 % 0x100);
    assert(b[1] as nat == n / 0x10000 % 0x100);
    assert(b[2] as nat == n / 0x100 % 0x100);
    assert(b[3] as nat == n % 0x100);
    assert(n / 0x1000000 % 0x100 * 0x1000000 + n / 0x10000 % 0x100 * 0x10000 + n / 0x100 % 0x100
        * 0x100 + n % 0x100 == n) by (nonlinear_arith)
        requires
            n <= u32::MAX,
    ;
}

} // verus!
