//! The payload framing of the main queue.
//!
//! A frame is one kind byte, then two length-prefixed sections, each length
//! a big-endian `u32`: `kind | len(first) | first | len(second) | second`.
//! For a message the sections are the encoded message and its context; for
//! an event, the encoded event and its context.
use vstd::prelude::*;

verus! {

/// Kind byte of a frame that carries a message.
pub const MAIN_KIND_MESSAGE: u8 = 1;

/// Kind byte of a frame that carries an event.
pub const MAIN_KIND_EVENT: u8 = 2;

/// The four big-endian bytes of `n` (`u32::to_be_bytes`).
pub open spec fn be_bytes(n: u32) -> Seq<u8> {
    seq![
        (n / 16777216) as u8,
        ((n / 65536) % 256) as u8,
        ((n / 256) % 256) as u8,
        (n % 256) as u8,
    ]
}

/// The value of four big-endian bytes (`u32::from_be_bytes`).
pub open spec fn be_value(b0: u8, b1: u8, b2: u8, b3: u8) -> int {
    b0 * 16777216 + b1 * 65536 + b2 * 256 + b3
}

/// The frame `encode_main_payload` writes.  A section longer than `u32::MAX`
/// bytes gets its length truncated to 32 bits, as the `as u32` cast does.
pub open spec fn main_frame(kind: u8, first: Seq<u8>, second: Seq<u8>) -> Seq<u8> {
    seq![kind] + be_bytes(first.len() as u32) + first + be_bytes(second.len() as u32) + second
}

/// Why a frame could not be read.
#[derive(Debug, Clone, Copy, PartialEq, Eq, Structural)]
pub enum MainPayloadError {
    /// Fewer than 9 bytes.
    TooShort,
    /// The first section, or the second length, runs past the end.
    FirstLengthOverflow,
    /// The second section runs past the end.
    SecondLengthOverflow,
}

/// The result of reading a frame: the kind byte and the two sections, or why
/// it cannot be read.  Bytes after the second section are ignored.
pub open spec fn decode_frame(p: Seq<u8>) -> Result<(u8, Seq<u8>, Seq<u8>), MainPayloadError> {
    if p.len() < 9 {
        Err(MainPayloadError::TooShort)
    } else {
        let first_end = 5 + be_value(p[1], p[2], p[3], p[4]);
        if p.len() < first_end + 4 {
            Err(MainPayloadError::FirstLengthOverflow)
        } else {
            let second_end = first_end + 4 + be_value(
                p[first_end],
                p[first_end + 1],
                p[first_end + 2],
                p[first_end + 3],
            );
            if p.len() < second_end {
                Err(MainPayloadError::SecondLengthOverflow)
            } else {
                Ok((p[0], p.subrange(5, first_end), p.subrange(first_end + 4, second_end)))
            }
        }
    }
}

proof fn lemma_be_roundtrip(n: u32)
    ensures
        be_value(be_bytes(n)[0], be_bytes(n)[1], be_bytes(n)[2], be_bytes(n)[3]) == n,
{
    let x = n as int;
    assert(be_value(
        (x / 16777216) as u8,
        ((x / 65536) % 256) as u8,
        ((x / 256) % 256) as u8,
        (x % 256) as u8,
    ) == x) by (nonlinear_arith)
        requires
            0 <= x < 4294967296,
    {
        assert(0 <= x / 16777216 < 256);
        assert(0 <= (x / 65536) % 256 < 256);
        assert(0 <= (x / 256) % 256 < 256);
        assert(0 <= x % 256 < 256);
    }
}

/// Writing a frame and reading it back gives the kind and both sections, when
/// each section is at most `u32::MAX` bytes long.
pub proof fn lemma_main_frame_roundtrip(kind: u8, first: Seq<u8>, second: Seq<u8>)
    requires
        first.len() <= u32::MAX,
        second.len() <= u32::MAX,
    ensures
        decode_frame(main_frame(kind, first, second)) == Ok::<(u8, Seq<u8>, Seq<u8>), MainPayloadError>((kind, first, second)),
{
    let p = main_frame(kind, first, second);
    let a = first.len() as u32;
    let b = second.len() as u32;
    lemma_be_roundtrip(a);
    lemma_be_roundtrip(b);
    let fe: int = 5 + first.len() as int;
    assert(p.len() == 9 + first.len() + second.len());
    assert(p[0] == kind);
    assert(p[1] == be_bytes(a)[0] && p[2] == be_bytes(a)[1] && p[3] == be_bytes(a)[2] && p[4] == be_bytes(a)[3]);
    assert(p[fe] == be_bytes(b)[0] && p[fe + 1] == be_bytes(b)[1] && p[fe + 2] == be_bytes(b)[2] && p[fe + 3] == be_bytes(b)[3]);
    assert(p.subrange(5, fe) =~= first);
    assert(p.subrange(fe + 4, fe + 4 + second.len() as int) =~= second);
}

fn push_be_u32(out: &mut Vec<u8>, n: u32)
    ensures
        final(out)@ == old(out)@ + be_bytes(n),
{
    out.push((n / 16777216) as u8);
    out.push(((n / 65536) % 256) as u8);
    out.push(((n / 256) % 256) as u8);
    out.push((n % 256) as u8);
    assert(final(out)@ =~= old(out)@ + be_bytes(n));
}

fn push_all(out: &mut Vec<u8>, bytes: &[u8])
    ensures
        final(out)@ == old(out)@ + bytes@,
{
    let ghost start = out@;
    let mut i: usize = 0;
    while i < bytes.len()
        invariant
            i <= bytes@.len(),
            out@ == start + bytes@.subrange(0, i as int),
        decreases bytes@.len() - i,
    {
        out.push(bytes[i]);
        assert(bytes@.subrange(0, i + 1) =~= bytes@.subrange(0, i as int).push(bytes@[i as int]));
        assert(out@ =~= start + bytes@.subrange(0, i + 1));
        i = i + 1;
    }
    assert(bytes@.subrange(0, i as int) =~= bytes@);
}

/// Writes a main-queue frame.
pub fn encode_main_payload(kind: u8, first: &[u8], second: &[u8]) -> (r: Vec<u8>)
    ensures
        r@ == main_frame(kind, first@, second@),
{
    let mut payload: Vec<u8> = Vec::new();
    payload.push(kind);
    push_be_u32(&mut payload, first.len() as u32);
    push_all(&mut payload, first);
    push_be_u32(&mut payload, second.len() as u32);
    push_all(&mut payload, second);
    assert(payload@ =~= main_frame(kind, first@, second@));
    payload
}

fn read_be_u32(p: &[u8], at: usize) -> (r: u64)
    requires
        at + 4 <= p@.len(),
    ensures
        r == be_value(p@[at as int], p@[at + 1], p@[at + 2], p@[at + 3]),
        r <= u32::MAX,
{
    let v = (p[at] as u64) * 16777216 + (p[at + 1] as u64) * 65536 + (p[at + 2] as u64) * 256
        + (p[at + 3] as u64);
    v
}

/// Reads a main-queue frame: its kind byte and its two sections.
pub fn decode_main_payload(payload: &[u8]) -> (r: Result<(u8, &[u8], &[u8]), MainPayloadError>)
    ensures
        match (r, decode_frame(payload@)) {
            (Ok((k, a, b)), Ok((k2, a2, b2))) => k == k2 && a@ == a2 && b@ == b2,
            (Err(e), Err(e2)) => e == e2,
            _ => false,
        },
{
    if payload.len() < 9 {
        return Err(MainPayloadError::TooShort);
    }
    let kind = payload[0];
    let first_len = read_be_u32(payload, 1);
    let first_end = 5 + first_len;
    if (payload.len() as u64) < first_end + 4 {
        return Err(MainPayloadError::FirstLengthOverflow);
    }
    let first_end = first_end as usize;
    let second_len = read_be_u32(payload, first_end);
    let second_end = first_end as u64 + 4 + second_len;
    if (payload.len() as u64) < second_end {
        return Err(MainPayloadError::SecondLengthOverflow);
    }
    let second_end = second_end as usize;
    let first = &payload[5..first_end];
    let second = &payload[first_end + 4..second_end];
    Ok((kind, first, second))
}

} // verus!
