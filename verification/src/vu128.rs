//! Variable-length integers in the `vu128` format.
//!
//! The byte-level encoding is done by the `vu128` crate; this module holds the
//! trusted wrappers around its functions, the names given to their results, and
//! the verified helpers that append encodings to an output buffer or read them
//! back from an input slice at a position.
use vstd::prelude::*;

verus! {

/// Number of zero bytes appended after a complete message, so that the last
/// value of a message can always be decoded from a full-width window.
pub const VU128_PADDING: usize = 17;

// ---------------------------------------------------------------------------
// Names for the results of the outside encoder and decoder functions.
// ---------------------------------------------------------------------------

/// The bytes that `vu128::encode_u32` produces for a value.
pub uninterp spec fn vu128_encoded_u32(value: u32) -> Seq<u8>;

/// The bytes that `vu128::encode_u64` produces for a value.
pub uninterp spec fn vu128_encoded_u64(value: u64) -> Seq<u8>;

/// The bytes that `vu128::encode_u128` produces for a value.
pub uninterp spec fn vu128_encoded_u128(value: u128) -> Seq<u8>;

/// The value and length that `vu128::decode_u32` reads from a 5-byte buffer.
pub uninterp spec fn vu128_decoded_u32(buf: Seq<u8>) -> (u32, usize);

/// The value and length that `vu128::decode_u64` reads from a 9-byte buffer.
pub uninterp spec fn vu128_decoded_u64(buf: Seq<u8>) -> (u64, usize);

/// The value and length that `vu128::decode_u128` reads from a 17-byte buffer.
pub uninterp spec fn vu128_decoded_u128(buf: Seq<u8>) -> (u128, usize);

// ---------------------------------------------------------------------------
// ZigZag mapping of signed integers, as the `vu128` crate computes it.
// ---------------------------------------------------------------------------

pub open spec fn zigzag32(v: i32) -> u32 {
    ((v >> 31u32) as u32) ^ ((v << 1u32) as u32)
}

pub open spec fn unzigzag32(z: u32) -> i32 {
    ((z >> 1u32) as i32) ^ (-((z & 1u32) as i32)) as i32
}

pub open spec fn zigzag64(v: i64) -> u64 {
    ((v >> 63u64) as u64) ^ ((v << 1u64) as u64)
}

pub open spec fn unzigzag64(z: u64) -> i64 {
    ((z >> 1u64) as i64) ^ (-((z & 1u64) as i64)) as i64
}

pub open spec fn zigzag128(v: i128) -> u128 {
    ((v >> 127u128) as u128) ^ ((v << 1u128) as u128)
}

pub open spec fn unzigzag128(z: u128) -> i128 {
    ((z >> 1u128) as i128) ^ (-((z & 1u128) as i128)) as i128
}

/// The ZigZag mapping is undone by its inverse.
pub proof fn lemma_zigzag32(v: i32)
    ensures
        unzigzag32(zigzag32(v)) == v,
{
    assert(((((v >> 31u32) as u32) ^ ((v << 1u32) as u32)) >> 1u32) as i32
        ^ (-(((((v >> 31u32) as u32) ^ ((v << 1u32) as u32)) & 1u32) as i32)) as i32 == v) by (bit_vector);
}

/// The ZigZag mapping is undone by its inverse.
pub proof fn lemma_zigzag64(v: i64)
    ensures
        unzigzag64(zigzag64(v)) == v,
{
    assert(((((v >> 63u64) as u64) ^ ((v << 1u64) as u64)) >> 1u64) as i64
        ^ (-(((((v >> 63u64) as u64) ^ ((v << 1u64) as u64)) & 1u64) as i64)) as i64 == v) by (bit_vector);
}

/// The ZigZag mapping is undone by its inverse.
pub proof fn lemma_zigzag128(v: i128)
    ensures
        unzigzag128(zigzag128(v)) == v,
{
    assert(((((v >> 127u128) as u128) ^ ((v << 1u128) as u128)) >> 1u128) as i128
        ^ (-(((((v >> 127u128) as u128) ^ ((v << 1u128) as u128)) & 1u128) as i128)) as i128 == v) by (bit_vector);
}

// ---------------------------------------------------------------------------
// Trusted wrappers around the `vu128` crate.
// ---------------------------------------------------------------------------

/// Calls `vu128::encode_u32` and returns the encoded prefix of its buffer.
/// Trusted: the result is the named encoding, 1 to 5 bytes long; values below
/// 0x80 are one byte with the same bits (crate documentation); and
/// `vu128::decode_u32` reads the value and length back from any 5-byte buffer
/// that starts with the encoding (crate documentation and examples).
#[verifier::external_body]
fn vu128_encode_u32(value: u32) -> (r: Vec<u8>)
    ensures
        r@ == vu128_encoded_u32(value),
        1 <= r@.len() <= 5,
        value < 0x80 ==> r@ == seq![value as u8],
        forall|buf: Seq<u8>|
            buf.len() == 5 && #[trigger] buf.take(r@.len() as int) == r@
                ==> vu128_decoded_u32(buf) == (value, r@.len() as usize),
{
    let mut buf = [0u8; 5];
    let n = vu128::encode_u32(&mut buf, value);
    buf[..n].to_vec()
}

/// Calls `vu128::encode_u64`; trusted as for `vu128_encode_u32`, with buffers
/// of 9 bytes.
#[verifier::external_body]
fn vu128_encode_u64(value: u64) -> (r: Vec<u8>)
    ensures
        r@ == vu128_encoded_u64(value),
        1 <= r@.len() <= 9,
        value < 0x80 ==> r@ == seq![value as u8],
        forall|buf: Seq<u8>|
            buf.len() == 9 && #[trigger] buf.take(r@.len() as int) == r@
                ==> vu128_decoded_u64(buf) == (value, r@.len() as usize),
{
    let mut buf = [0u8; 9];
    let n = vu128::encode_u64(&mut buf, value);
    buf[..n].to_vec()
}

/// Calls `vu128::encode_u128`; trusted as for `vu128_encode_u32`, with buffers
/// of 17 bytes.
#[verifier::external_body]
fn vu128_encode_u128(value: u128) -> (r: Vec<u8>)
    ensures
        r@ == vu128_encoded_u128(value),
        1 <= r@.len() <= 17,
        value < 0x80 ==> r@ == seq![value as u8],
        forall|buf: Seq<u8>|
            buf.len() == 17 && #[trigger] buf.take(r@.len() as int) == r@
                ==> vu128_decoded_u128(buf) == (value, r@.len() as usize),
{
    let mut buf = [0u8; 17];
    let n = vu128::encode_u128(&mut buf, value);
    buf[..n].to_vec()
}

/// Calls `vu128::encode_i32`, which the crate's source defines as
/// `encode_u32` applied to the ZigZag mapping of the value; so the claims of
/// `vu128_encode_u32` hold of that mapped value.
#[verifier::external_body]
fn vu128_encode_i32(value: i32) -> (r: Vec<u8>)
    ensures
        r@ == vu128_encoded_u32(zigzag32(value)),
        1 <= r@.len() <= 5,
        zigzag32(value) < 0x80 ==> r@ == seq![zigzag32(value) as u8],
        forall|buf: Seq<u8>|
            buf.len() == 5 && #[trigger] buf.take(r@.len() as int) == r@
                ==> vu128_decoded_u32(buf) == (zigzag32(value), r@.len() as usize),
{
    let mut buf = [0u8; 5];
    let n = vu128::encode_i32(&mut buf, value);
    buf[..n].to_vec()
}

/// Calls `vu128::encode_i64`: `encode_u64` of the ZigZag mapping.
#[verifier::external_body]
fn vu128_encode_i64(value: i64) -> (r: Vec<u8>)
    ensures
        r@ == vu128_encoded_u64(zigzag64(value)),
        1 <= r@.len() <= 9,
        zigzag64(value) < 0x80 ==> r@ == seq![zigzag64(value) as u8],
        forall|buf: Seq<u8>|
            buf.len() == 9 && #[trigger] buf.take(r@.len() as int) == r@
                ==> vu128_decoded_u64(buf) == (zigzag64(value), r@.len() as usize),
{
    let mut buf = [0u8; 9];
    let n = vu128::encode_i64(&mut buf, value);
    buf[..n].to_vec()
}

/// Calls `vu128::encode_i128`: `encode_u128` of the ZigZag mapping.
#[verifier::external_body]
fn vu128_encode_i128(value: i128) -> (r: Vec<u8>)
    ensures
        r@ == vu128_encoded_u128(zigzag128(value)),
        1 <= r@.len() <= 17,
        zigzag128(value) < 0x80 ==> r@ == seq![zigzag128(value) as u8],
        forall|buf: Seq<u8>|
            buf.len() == 17 && #[trigger] buf.take(r@.len() as int) == r@
                ==> vu128_decoded_u128(buf) == (zigzag128(value), r@.len() as usize),
{
    let mut buf = [0u8; 17];
    let n = vu128::encode_i128(&mut buf, value);
    buf[..n].to_vec()
}

/// Calls `vu128::decode_u32` on a 5-byte buffer; the result is the named one.
#[verifier::external_body]
fn vu128_decode_u32(buf: &[u8]) -> (r: (u32, usize))
    requires
        buf@.len() == 5,
    ensures
        r == vu128_decoded_u32(buf@),
{
    let arr: &[u8; 5] = buf.try_into().unwrap();
    vu128::decode_u32(arr)
}

/// Calls `vu128::decode_u64` on a 9-byte buffer; the result is the named one.
#[verifier::external_body]
fn vu128_decode_u64(buf: &[u8]) -> (r: (u64, usize))
    requires
        buf@.len() == 9,
    ensures
        r == vu128_decoded_u64(buf@),
{
    let arr: &[u8; 9] = buf.try_into().unwrap();
    vu128::decode_u64(arr)
}

/// Calls `vu128::decode_u128` on a 17-byte buffer; the result is the named one.
#[verifier::external_body]
fn vu128_decode_u128(buf: &[u8]) -> (r: (u128, usize))
    requires
        buf@.len() == 17,
    ensures
        r == vu128_decoded_u128(buf@),
{
    let arr: &[u8; 17] = buf.try_into().unwrap();
    vu128::decode_u128(arr)
}

/// Calls `vu128::decode_i32`, which the crate's source defines as `decode_u32`
/// followed by the inverse ZigZag mapping.
#[verifier::external_body]
fn vu128_decode_i32(buf: &[u8]) -> (r: (i32, usize))
    requires
        buf@.len() == 5,
    ensures
        r == (unzigzag32(vu128_decoded_u32(buf@).0), vu128_decoded_u32(buf@).1),
{
    let arr: &[u8; 5] = buf.try_into().unwrap();
    vu128::decode_i32(arr)
}

/// Calls `vu128::decode_i64`: `decode_u64` then the inverse ZigZag mapping.
#[verifier::external_body]
fn vu128_decode_i64(buf: &[u8]) -> (r: (i64, usize))
    requires
        buf@.len() == 9,
    ensures
        r == (unzigzag64(vu128_decoded_u64(buf@).0), vu128_decoded_u64(buf@).1),
{
    let arr: &[u8; 9] = buf.try_into().unwrap();
    vu128::decode_i64(arr)
}

/// Calls `vu128::decode_i128`: `decode_u128` then the inverse ZigZag mapping.
#[verifier::external_body]
fn vu128_decode_i128(buf: &[u8]) -> (r: (i128, usize))
    requires
        buf@.len() == 17,
    ensures
        r == (unzigzag128(vu128_decoded_u128(buf@).0), vu128_decoded_u128(buf@).1),
{
    let arr: &[u8; 17] = buf.try_into().unwrap();
    vu128::decode_i128(arr)
}

// ---------------------------------------------------------------------------
// Reading from an input at a position.
// ---------------------------------------------------------------------------

/// The `n` bytes of `data` starting at `pos`, with zeros past the end of `data`.
pub open spec fn window(data: Seq<u8>, pos: int, n: int) -> Seq<u8> {
    Seq::new(n as nat, |i: int| if pos + i < data.len() { data[pos + i] } else { 0u8 })
}

fn window_vec(data: &[u8], pos: usize, n: usize) -> (r: Vec<u8>)
    requires
        pos <= data@.len(),
    ensures
        r@ == window(data@, pos as int, n as int),
{
    let mut r: Vec<u8> = Vec::new();
    let avail = data.len() - pos;
    let mut i: usize = 0;
    while i < n
        invariant
            i <= n,
            pos <= data@.len(),
            avail == data.len() - pos,
            r@.len() == i,
            forall|j: int| 0 <= j < i ==> #[trigger] r@[j] == window(data@, pos as int, n as int)[j],
        decreases n - i,
    {
        if i < avail {
            assert(pos + i < data.len());
            r.push(data[pos + i]);
        } else {
            r.push(0u8);
        }
        i = i + 1;
    }
    assert(r@ =~= window(data@, pos as int, n as int));
    r
}

/// Result of reading a `vu128` value of the 32-bit family at `pos`: the value
/// and the position after it, or `None` when the encoding runs past the end.
pub open spec fn spec_read_u32(data: Seq<u8>, pos: int) -> Option<(u32, int)> {
    let (v, len) = vu128_decoded_u32(window(data, pos, 5));
    if pos + len <= data.len() { Some((v, pos + len)) } else { None }
}

pub open spec fn spec_read_u64(data: Seq<u8>, pos: int) -> Option<(u64, int)> {
    let (v, len) = vu128_decoded_u64(window(data, pos, 9));
    if pos + len <= data.len() { Some((v, pos + len)) } else { None }
}

pub open spec fn spec_read_u128(data: Seq<u8>, pos: int) -> Option<(u128, int)> {
    let (v, len) = vu128_decoded_u128(window(data, pos, 17));
    if pos + len <= data.len() { Some((v, pos + len)) } else { None }
}

pub open spec fn spec_read_i32(data: Seq<u8>, pos: int) -> Option<(i32, int)> {
    match spec_read_u32(data, pos) {
        Some((z, p)) => Some((unzigzag32(z), p)),
        None => None,
    }
}

pub open spec fn spec_read_i64(data: Seq<u8>, pos: int) -> Option<(i64, int)> {
    match spec_read_u64(data, pos) {
        Some((z, p)) => Some((unzigzag64(z), p)),
        None => None,
    }
}

pub open spec fn spec_read_i128(data: Seq<u8>, pos: int) -> Option<(i128, int)> {
    match spec_read_u128(data, pos) {
        Some((z, p)) => Some((unzigzag128(z), p)),
        None => None,
    }
}

/// Reads a `vu128` value with `vu128::decode_u32` at `pos`.
pub fn read_u32(data: &[u8], pos: usize) -> (r: Option<(u32, usize)>)
    requires
        pos <= data@.len(),
    ensures
        match r {
            Some((v, p)) => spec_read_u32(data@, pos as int) == Some((v, p as int)),
            None => spec_read_u32(data@, pos as int) is None,
        },
{
    let buf = window_vec(data, pos, 5);
    let (v, len) = vu128_decode_u32(buf.as_slice());
    if len <= data.len() - pos {
        Some((v, pos + len))
    } else {
        None
    }
}

/// Reads a `vu128` value with `vu128::decode_u64` at `pos`.
pub fn read_u64(data: &[u8], pos: usize) -> (r: Option<(u64, usize)>)
    requires
        pos <= data@.len(),
    ensures
        match r {
            Some((v, p)) => spec_read_u64(data@, pos as int) == Some((v, p as int)),
            None => spec_read_u64(data@, pos as int) is None,
        },
{
    let buf = window_vec(data, pos, 9);
    let (v, len) = vu128_decode_u64(buf.as_slice());
    if len <= data.len() - pos {
        Some((v, pos + len))
    } else {
        None
    }
}

/// Reads a `vu128` value with `vu128::decode_u128` at `pos`.
pub fn read_u128(data: &[u8], pos: usize) -> (r: Option<(u128, usize)>)
    requires
        pos <= data@.len(),
    ensures
        match r {
            Some((v, p)) => spec_read_u128(data@, pos as int) == Some((v, p as int)),
            None => spec_read_u128(data@, pos as int) is None,
        },
{
    let buf = window_vec(data, pos, 17);
    let (v, len) = vu128_decode_u128(buf.as_slice());
    if len <= data.len() - pos {
        Some((v, pos + len))
    } else {
        None
    }
}

/// Reads a ZigZag-mapped value with `vu128::decode_i32` at `pos`.
pub fn read_i32(data: &[u8], pos: usize) -> (r: Option<(i32, usize)>)
    requires
        pos <= data@.len(),
    ensures
        match r {
            Some((v, p)) => spec_read_i32(data@, pos as int) == Some((v, p as int)),
            None => spec_read_i32(data@, pos as int) is None,
        },
{
    let buf = window_vec(data, pos, 5);
    let (v, len) = vu128_decode_i32(buf.as_slice());
    if len <= data.len() - pos {
        Some((v, pos + len))
    } else {
        None
    }
}

/// Reads a ZigZag-mapped value with `vu128::decode_i64` at `pos`.
pub fn read_i64(data: &[u8], pos: usize) -> (r: Option<(i64, usize)>)
    requires
        pos <= data@.len(),
    ensures
        match r {
            Some((v, p)) => spec_read_i64(data@, pos as int) == Some((v, p as int)),
            None => spec_read_i64(data@, pos as int) is None,
        },
{
    let buf = window_vec(data, pos, 9);
    let (v, len) = vu128_decode_i64(buf.as_slice());
    if len <= data.len() - pos {
        Some((v, pos + len))
    } else {
        None
    }
}

/// Reads a ZigZag-mapped value with `vu128::decode_i128` at `pos`.
pub fn read_i128(data: &[u8], pos: usize) -> (r: Option<(i128, usize)>)
    requires
        pos <= data@.len(),
    ensures
        match r {
            Some((v, p)) => spec_read_i128(data@, pos as int) == Some((v, p as int)),
            None => spec_read_i128(data@, pos as int) is None,
        },
{
    let buf = window_vec(data, pos, 17);
    let (v, len) = vu128_decode_i128(buf.as_slice());
    if len <= data.len() - pos {
        Some((v, pos + len))
    } else {
        None
    }
}

// ---------------------------------------------------------------------------
// Appending to an output buffer.
// ---------------------------------------------------------------------------

/// Appends `vu128::encode_u32(value)`.  Whatever is appended later, reading at
/// the old end gives the value back and stops at the new end.
pub fn write_u32(out: &mut Vec<u8>, value: u32)
    ensures
        final(out)@ == old(out)@ + vu128_encoded_u32(value),
        value < 0x80 ==> vu128_encoded_u32(value) == seq![value as u8],
        forall|rest: Seq<u8>|
            #[trigger] spec_read_u32(final(out)@ + rest, old(out)@.len() as int)
                == Some((value, final(out)@.len() as int)),
{
    let bytes = vu128_encode_u32(value);
    let ghost start = out@.len() as int;
    out.extend_from_slice(bytes.as_slice());
    assert forall|rest: Seq<u8>|
        #[trigger] spec_read_u32(out@ + rest, start) == Some((value, out@.len() as int)) by {
        let data = out@ + rest;
        let w = window(data, start, 5);
        assert(w.take(bytes@.len() as int) =~= bytes@);
    }
}

/// Appends `vu128::encode_u64(value)`, readable back as for `write_u32`.
pub fn write_u64(out: &mut Vec<u8>, value: u64)
    ensures
        final(out)@ == old(out)@ + vu128_encoded_u64(value),
        value < 0x80 ==> vu128_encoded_u64(value) == seq![value as u8],
        forall|rest: Seq<u8>|
            #[trigger] spec_read_u64(final(out)@ + rest, old(out)@.len() as int)
                == Some((value, final(out)@.len() as int)),
{
    let bytes = vu128_encode_u64(value);
    let ghost start = out@.len() as int;
    out.extend_from_slice(bytes.as_slice());
    assert forall|rest: Seq<u8>|
        #[trigger] spec_read_u64(out@ + rest, start) == Some((value, out@.len() as int)) by {
        let data = out@ + rest;
        let w = window(data, start, 9);
        assert(w.take(bytes@.len() as int) =~= bytes@);
    }
}

/// Appends `vu128::encode_u128(value)`, readable back as for `write_u32`.
pub fn write_u128(out: &mut Vec<u8>, value: u128)
    ensures
        final(out)@ == old(out)@ + vu128_encoded_u128(value),
        value < 0x80 ==> vu128_encoded_u128(value) == seq![value as u8],
        forall|rest: Seq<u8>|
            #[trigger] spec_read_u128(final(out)@ + rest, old(out)@.len() as int)
                == Some((value, final(out)@.len() as int)),
{
    let bytes = vu128_encode_u128(value);
    let ghost start = out@.len() as int;
    out.extend_from_slice(bytes.as_slice());
    assert forall|rest: Seq<u8>|
        #[trigger] spec_read_u128(out@ + rest, start) == Some((value, out@.len() as int)) by {
        let data = out@ + rest;
        let w = window(data, start, 17);
        assert(w.take(bytes@.len() as int) =~= bytes@);
    }
}

/// Appends `vu128::encode_i32(value)`, readable back with `read_i32`.
pub fn write_i32(out: &mut Vec<u8>, value: i32)
    ensures
        final(out)@ == old(out)@ + vu128_encoded_u32(zigzag32(value)),
        zigzag32(value) < 0x80 ==> vu128_encoded_u32(zigzag32(value)) == seq![zigzag32(value) as u8],
        forall|rest: Seq<u8>|
            #[trigger] spec_read_i32(final(out)@ + rest, old(out)@.len() as int)
                == Some((value, final(out)@.len() as int)),
{
    let bytes = vu128_encode_i32(value);
    proof {
        lemma_zigzag32(value);
    }
    let ghost start = out@.len() as int;
    out.extend_from_slice(bytes.as_slice());
    assert forall|rest: Seq<u8>|
        #[trigger] spec_read_i32(out@ + rest, start) == Some((value, out@.len() as int)) by {
        let data = out@ + rest;
        let w = window(data, start, 5);
        assert(w.take(bytes@.len() as int) =~= bytes@);
    }
}

/// Appends `vu128::encode_i64(value)`, readable back with `read_i64`.
pub fn write_i64(out: &mut Vec<u8>, value: i64)
    ensures
        final(out)@ == old(out)@ + vu128_encoded_u64(zigzag64(value)),
        zigzag64(value) < 0x80 ==> vu128_encoded_u64(zigzag64(value)) == seq![zigzag64(value) as u8],
        forall|rest: Seq<u8>|
            #[trigger] spec_read_i64(final(out)@ + rest, old(out)@.len() as int)
                == Some((value, final(out)@.len() as int)),
{
    let bytes = vu128_encode_i64(value);
    proof {
        lemma_zigzag64(value);
    }
    let ghost start = out@.len() as int;
    out.extend_from_slice(bytes.as_slice());
    assert forall|rest: Seq<u8>|
        #[trigger] spec_read_i64(out@ + rest, start) == Some((value, out@.len() as int)) by {
        let data = out@ + rest;
        let w = window(data, start, 9);
        assert(w.take(bytes@.len() as int) =~= bytes@);
    }
}

/// Appends `vu128::encode_i128(value)`, readable back with `read_i128`.
pub fn write_i128(out: &mut Vec<u8>, value: i128)
    ensures
        final(out)@ == old(out)@ + vu128_encoded_u128(zigzag128(value)),
        zigzag128(value) < 0x80 ==> vu128_encoded_u128(zigzag128(value)) == seq![zigzag128(value) as u8],
        forall|rest: Seq<u8>|
            #[trigger] spec_read_i128(final(out)@ + rest, old(out)@.len() as int)
                == Some((value, final(out)@.len() as int)),
{
    let bytes = vu128_encode_i128(value);
    proof {
        lemma_zigzag128(value);
    }
    let ghost start = out@.len() as int;
    out.extend_from_slice(bytes.as_slice());
    assert forall|rest: Seq<u8>|
        #[trigger] spec_read_i128(out@ + rest, start) == Some((value, out@.len() as int)) by {
        let data = out@ + rest;
        let w = window(data, start, 17);
        assert(w.take(bytes@.len() as int) =~= bytes@);
    }
}

// ---------------------------------------------------------------------------
// The integer types that have a `vu128` encoding.
// ---------------------------------------------------------------------------

/// An integer type with a `vu128` encoding: appending a value, and reading
/// one at a position of an input.
pub trait ToFromVu128: Sized {
    /// The bytes that encode `value`.
    spec fn vu128_bytes(value: Self) -> Seq<u8>;

    /// What reading an encoding at `pos` of `data` gives: the value and the
    /// position after it, or `None` where the encoding runs past the end.
    spec fn vu128_read(data: Seq<u8>, pos: int) -> Option<(Self, int)>;

    /// Appends the encoding of `value`.  Whatever is appended later, reading
    /// at the old end gives the value back and stops at the new end.
    fn encode_vu128(out: &mut Vec<u8>, value: Self)
        ensures
            final(out)@ == old(out)@ + Self::vu128_bytes(value),
            forall|rest: Seq<u8>|
                #[trigger] Self::vu128_read(final(out)@ + rest, old(out)@.len() as int)
                    == Some((value, final(out)@.len() as int)),
    ;

    /// Reads an encoding at `pos`.
    fn decode_vu128(data: &[u8], pos: usize) -> (r: Option<(Self, usize)>)
        requires
            pos <= data@.len(),
        ensures
            match r {
                Some((v, p)) => Self::vu128_read(data@, pos as int) == Some((v, p as int)),
                None => Self::vu128_read(data@, pos as int) is None,
            },
    ;
}

impl ToFromVu128 for u32 {
    open spec fn vu128_bytes(value: u32) -> Seq<u8> {
        vu128_encoded_u32(value)
    }

    open spec fn vu128_read(data: Seq<u8>, pos: int) -> Option<(u32, int)> {
        spec_read_u32(data, pos)
    }

    fn encode_vu128(out: &mut Vec<u8>, value: u32) {
        write_u32(out, value)
    }

    fn decode_vu128(data: &[u8], pos: usize) -> (r: Option<(u32, usize)>) {
        read_u32(data, pos)
    }
}

impl ToFromVu128 for u64 {
    open spec fn vu128_bytes(value: u64) -> Seq<u8> {
        vu128_encoded_u64(value)
    }

    open spec fn vu128_read(data: Seq<u8>, pos: int) -> Option<(u64, int)> {
        spec_read_u64(data, pos)
    }

    fn encode_vu128(out: &mut Vec<u8>, value: u64) {
        write_u64(out, value)
    }

    fn decode_vu128(data: &[u8], pos: usize) -> (r: Option<(u64, usize)>) {
        read_u64(data, pos)
    }
}

impl ToFromVu128 for u128 {
    open spec fn vu128_bytes(value: u128) -> Seq<u8> {
        vu128_encoded_u128(value)
    }

    open spec fn vu128_read(data: Seq<u8>, pos: int) -> Option<(u128, int)> {
        spec_read_u128(data, pos)
    }

    fn encode_vu128(out: &mut Vec<u8>, value: u128) {
        write_u128(out, value)
    }

    fn decode_vu128(data: &[u8], pos: usize) -> (r: Option<(u128, usize)>) {
        read_u128(data, pos)
    }
}

impl ToFromVu128 for i32 {
    open spec fn vu128_bytes(value: i32) -> Seq<u8> {
        vu128_encoded_u32(zigzag32(value))
    }

    open spec fn vu128_read(data: Seq<u8>, pos: int) -> Option<(i32, int)> {
        spec_read_i32(data, pos)
    }

    fn encode_vu128(out: &mut Vec<u8>, value: i32) {
        write_i32(out, value)
    }

    fn decode_vu128(data: &[u8], pos: usize) -> (r: Option<(i32, usize)>) {
        read_i32(data, pos)
    }
}

impl ToFromVu128 for i64 {
    open spec fn vu128_bytes(value: i64) -> Seq<u8> {
        vu128_encoded_u64(zigzag64(value))
    }

    open spec fn vu128_read(data: Seq<u8>, pos: int) -> Option<(i64, int)> {
        spec_read_i64(data, pos)
    }

    fn encode_vu128(out: &mut Vec<u8>, value: i64) {
        write_i64(out, value)
    }

    fn decode_vu128(data: &[u8], pos: usize) -> (r: Option<(i64, usize)>) {
        read_i64(data, pos)
    }
}

impl ToFromVu128 for i128 {
    open spec fn vu128_bytes(value: i128) -> Seq<u8> {
        vu128_encoded_u128(zigzag128(value))
    }

    open spec fn vu128_read(data: Seq<u8>, pos: int) -> Option<(i128, int)> {
        spec_read_i128(data, pos)
    }

    fn encode_vu128(out: &mut Vec<u8>, value: i128) {
        write_i128(out, value)
    }

    fn decode_vu128(data: &[u8], pos: usize) -> (r: Option<(i128, usize)>) {
        read_i128(data, pos)
    }
}

} // verus!
