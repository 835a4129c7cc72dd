//! The line protocol between manager and worker: each record is the signal
//! identifier as a native-byte-order `i32`, followed by a newline.
use vstd::prelude::*;

verus! {

/// The width of a record's payload.
pub const PAYLOAD_LEN: usize = 4;

/// The delimiter that ends each record.
pub const DELIMITER: u8 = 10;

/// What `i32::to_ne_bytes` returns for `x`, as a sequence.
pub uninterp spec fn ne_bytes_of(x: i32) -> Seq<u8>;

/// What `i32::from_ne_bytes` returns for the bytes `b`.
pub uninterp spec fn from_ne_of(b: Seq<u8>) -> i32;

/// Relies on `i32::to_ne_bytes`: four bytes, which `i32::from_ne_bytes`
/// turns back into `x`.
#[verifier::external_body]
fn to_ne(x: i32) -> (r: Vec<u8>)
    ensures
        r@ == ne_bytes_of(x),
        r@.len() == 4,
        from_ne_of(r@) == x,
{
    x.to_ne_bytes().to_vec()
}

/// Relies on `i32::from_ne_bytes`.
#[verifier::external_body]
fn from_ne(b: [u8; 4]) -> (r: i32)
    ensures
        r == from_ne_of(b@),
{
    i32::from_ne_bytes(b)
}

/// A record shorter than its payload.
#[derive(Copy, Clone, Debug, PartialEq, Eq, Structural)]
pub struct MalformedMessage {
    /// The number of bytes that were there.
    pub len: usize,
}

/// The record that carries `sig`.
pub open spec fn line_of(sig: i32) -> Seq<u8> {
    ne_bytes_of(sig).push(DELIMITER)
}

/// What a line decodes to: its first four bytes as an identifier, or an
/// error where it is shorter than that.
pub open spec fn decode_spec(line: Seq<u8>) -> Result<i32, MalformedMessage> {
    if line.len() < PAYLOAD_LEN {
        Err(MalformedMessage { len: line.len() as usize })
    } else {
        Ok(from_ne_of(line.subrange(0, PAYLOAD_LEN as int)))
    }
}

/// Encodes `sig` as one record. Decoding the record gives `sig` back.
pub fn sig_to_line_bs(sig: i32) -> (r: Vec<u8>)
    ensures
        r@ == line_of(sig),
        r@.len() == PAYLOAD_LEN + 1,
        decode_spec(r@) == Ok::<i32, MalformedMessage>(sig),
{
    let mut sbs = to_ne(sig);
    sbs.push(DELIMITER);
    assert(sbs@.subrange(0, PAYLOAD_LEN as int) =~= ne_bytes_of(sig));
    sbs
}

/// Decodes the record at the start of `bs`; bytes past the payload are
/// ignored.
pub fn read_sig(bs: &[u8]) -> (r: Result<i32, MalformedMessage>)
    ensures
        r == decode_spec(bs@),
{
    if bs.len() < PAYLOAD_LEN {
        return Err(MalformedMessage { len: bs.len() });
    }
    let payload: [u8; 4] = [bs[0], bs[1], bs[2], bs[3]];
    assert(payload@ =~= bs@.subrange(0, PAYLOAD_LEN as int));
    Ok(from_ne(payload))
}

} // verus!
