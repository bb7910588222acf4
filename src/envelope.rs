//! The envelope: a four-byte big-endian length, then exactly that many bytes
//! of payload.
use vstd::prelude::*;

verus! {

/// Why an envelope could not be written or read.
#[derive(Debug, Clone, Copy, PartialEq, Eq, Structural)]
pub enum EnvelopeError {
    /// The stream ended before the length prefix or the payload was complete.
    Truncated,
    /// The payload is longer than a four-byte length can state.
    PayloadTooLarge,
}

/// The largest payload length that the prefix can state.
pub const MAX_PAYLOAD: usize = 0xffff_ffff;

/// The number that the first four bytes of `b` state, most significant first.
pub open spec fn be_value(b: Seq<u8>) -> nat
    recommends
        b.len() >= 4,
{
    (b[0] as nat) * 16777216 + (b[1] as nat) * 65536 + (b[2] as nat) * 256 + (b[3] as nat)
}

/// The four bytes that state `n`, most significant first.
pub open spec fn be_bytes(n: nat) -> Seq<u8> {
    seq![
        (n / 16777216 % 256) as u8,
        (n / 65536 % 256) as u8,
        (n / 256 % 256) as u8,
        (n % 256) as u8,
    ]
}

/// The envelope that carries `p`.
pub open spec fn framed(p: Seq<u8>) -> Seq<u8> {
    be_bytes(p.len()) + p
}

/// What a reader gets from a stream that holds `s` and is then closed: the
/// payload of the first envelope and the number of bytes it took, or
/// `Truncated` where the stream ends inside the prefix or the payload.
pub open spec fn read_from(s: Seq<u8>) -> Result<(Seq<u8>, nat), EnvelopeError> {
    if s.len() < 4 {
        Err(EnvelopeError::Truncated)
    } else if s.len() < 4 + be_value(s) {
        Err(EnvelopeError::Truncated)
    } else {
        Ok((s.subrange(4, 4 + be_value(s) as int), 4 + be_value(s)))
    }
}

/// The length prefix of a payload of `len` bytes.
pub fn length_prefix(len: u32) -> (r: Vec<u8>)
    ensures
        r@ == be_bytes(len as nat),
{
    let mut r: Vec<u8> = Vec::with_capacity(4);
    r.push((len / 16777216 % 256) as u8);
    r.push((len / 65536 % 256) as u8);
    r.push((len / 256 % 256) as u8);
    r.push((len % 256) as u8);
    assert(r@ =~= be_bytes(len as nat));
    r
}

/// The payload length that a prefix states, or `Truncated` where fewer than
/// four bytes arrived.
pub fn payload_length(prefix: &[u8]) -> (r: Result<usize, EnvelopeError>)
    ensures
        prefix@.len() < 4 ==> r == Err::<usize, EnvelopeError>(EnvelopeError::Truncated),
        prefix@.len() >= 4 ==> r == Ok::<usize, EnvelopeError>(be_value(prefix@) as usize),
        prefix@.len() >= 4 ==> be_value(prefix@) <= MAX_PAYLOAD,
{
    if prefix.len() < 4 {
        return Err(EnvelopeError::Truncated);
    }
    let v: u32 = (prefix[0] as u32) * 16777216 + (prefix[1] as u32) * 65536 + (prefix[2] as u32)
        * 256 + (prefix[3] as u32);
    Ok(v as usize)
}

/// The envelope that carries `payload`: its length prefix, then the payload.
/// Fails with `PayloadTooLarge`, and only then, where the length does not fit
/// in four bytes.
pub fn encode_envelope(payload: &[u8]) -> (r: Result<Vec<u8>, EnvelopeError>)
    ensures
        payload@.len() > MAX_PAYLOAD ==> r == Err::<Vec<u8>, EnvelopeError>(
            EnvelopeError::PayloadTooLarge,
        ),
        payload@.len() <= MAX_PAYLOAD ==> r is Ok && r->Ok_0@ == framed(payload@),
{
    if payload.len() > MAX_PAYLOAD {
        return Err(EnvelopeError::PayloadTooLarge);
    }
    let mut out = length_prefix(payload.len() as u32);
    let mut i: usize = 0;
    while i < payload.len()
        invariant
            i <= payload@.len(),
            out@ == be_bytes(payload@.len()) + payload@.subrange(0, i as int),
        decreases payload@.len() - i,
    {
        out.push(payload[i]);
        i = i + 1;
        assert(out@ =~= be_bytes(payload@.len()) + payload@.subrange(0, i as int));
    }
    assert(payload@.subrange(0, payload@.len() as int) =~= payload@);
    Ok(out)
}

/// Reads the first envelope of `stream`, the bytes that a connection gave
/// before it was closed: the payload and the number of bytes taken, or
/// `Truncated` where the stream ends before the envelope is complete.
pub fn decode_envelope(stream: &[u8]) -> (r: Result<(Vec<u8>, usize), EnvelopeError>)
    ensures
        match r {
            Ok((p, k)) => read_from(stream@) == Ok::<(Seq<u8>, nat), EnvelopeError>(
                (p@, k as nat),
            ),
            Err(e) => read_from(stream@) == Err::<(Seq<u8>, nat), EnvelopeError>(e),
        },
{
    let n = match payload_length(stream) {
        Ok(n) => n,
        Err(e) => {
            return Err(e);
        },
    };
    let len = stream.len();
    if len - 4 < n {
        return Err(EnvelopeError::Truncated);
    }
    let mut p: Vec<u8> = Vec::with_capacity(n);
    let mut i: usize = 0;
    while i < n
        invariant
            n == be_value(stream@),
            len == stream@.len(),
            4 + n <= len,
            i <= n,
            p@ == stream@.subrange(4, 4 + i),
        decreases n - i,
    {
        p.push(stream[4 + i]);
        i = i + 1;
        assert(p@ =~= stream@.subrange(4, 4 + i));
    }
    Ok((p, 4 + n))
}

/// The number that `be_bytes` writes is the one that `be_value` reads.
pub proof fn lemma_be_round_trip(n: nat, rest: Seq<u8>)
    requires
        n <= MAX_PAYLOAD,
    ensures
        be_value(be_bytes(n) + rest) == n,
{
    let b = be_bytes(n) + rest;
    assert(b[0] == (n / 16777216 % 256) as u8);
    assert(b[1] == (n / 65536 % 256) as u8);
    assert(b[2] == (n / 256 % 256) as u8);
    assert(b[3] == (n % 256) as u8);
    assert((n / 16777216 % 256) * 16777216 + (n / 65536 % 256) * 65536 + (n / 256 % 256) * 256
        + (n % 256) == n) by (nonlinear_arith)
        requires
            n <= 0xffff_ffff,
    ;
}

/// Reading what was written gives the payload back, whatever follows it on
/// the stream, and takes exactly the envelope's bytes.
pub proof fn lemma_envelope_round_trip(p: Seq<u8>, rest: Seq<u8>)
    requires
        p.len() <= MAX_PAYLOAD,
    ensures
        read_from(framed(p) + rest) == Ok::<(Seq<u8>, nat), EnvelopeError>((p, p.len() + 4)),
{
    let s = framed(p) + rest;
    assert(s =~= be_bytes(p.len()) + (p + rest));
    lemma_be_round_trip(p.len(), p + rest);
    assert(s.subrange(4, 4 + p.len() as int) =~= p);
}

/// A stream closed before the whole envelope arrived reads as `Truncated`,
/// never as a shorter payload; this holds in particular of a stream that
/// holds the length prefix alone.
pub proof fn lemma_truncated_envelope(p: Seq<u8>, k: nat)
    requires
        p.len() <= MAX_PAYLOAD,
        k < framed(p).len(),
    ensures
        read_from(framed(p).subrange(0, k as int)) == Err::<(Seq<u8>, nat), EnvelopeError>(
            EnvelopeError::Truncated,
        ),
{
    let s = framed(p).subrange(0, k as int);
    if k >= 4 {
        let rest = framed(p).subrange(4, k as int);
        assert(s =~= be_bytes(p.len()) + rest);
        lemma_be_round_trip(p.len(), rest);
    }
}

} // verus!
