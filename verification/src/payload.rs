//! The byte payload of a primitive value, shared by both formats: every
//! integer is a `vu128` value (signed ones ZigZag-mapped), `bool` and `char`
//! travel as 32-bit integers, and floating-point bit patterns are byte-swapped
//! before encoding, as the `vu128` crate does for its float helpers.
use vstd::prelude::*;
use crate::error::ReadError;
use crate::primitive::{Primitive, PrimitiveType, type_of};
use crate::vu128::{
    read_i128, read_i32, read_i64, read_u128, read_u32, read_u64, spec_read_i128, spec_read_i32,
    spec_read_i64, spec_read_u128, spec_read_u32, spec_read_u64, vu128_encoded_u128,
    vu128_encoded_u32, vu128_encoded_u64, write_i128, write_i32, write_i64, write_u128, write_u32,
    write_u64, zigzag128, zigzag32, zigzag64,
};

verus! {

pub open spec fn swap32(x: u32) -> u32 {
    ((x & 0xffu32) << 24u32) | ((x & 0xff00u32) << 8u32) | ((x >> 8u32) & 0xff00u32) | (x >> 24u32)
}

pub open spec fn swap64(x: u64) -> u64 {
    ((x & 0xffu64) << 56u64) | ((x & 0xff00u64) << 40u64) | ((x & 0xff0000u64) << 24u64) | ((x
        & 0xff000000u64) << 8u64) | ((x >> 8u64) & 0xff000000u64) | ((x >> 24u64) & 0xff0000u64)
        | ((x >> 40u64) & 0xff00u64) | (x >> 56u64)
}

pub proof fn lemma_swap32_twice(x: u32)
    ensures
        swap32(swap32(x)) == x,
{
    assert(swap32(swap32(x)) == x) by (bit_vector);
}

pub proof fn lemma_swap64_twice(x: u64)
    ensures
        swap64(swap64(x)) == x,
{
    assert(swap64(swap64(x)) == x) by (bit_vector);
}

/// Reverses the byte order of a 32-bit word.
pub fn swap_bytes32(x: u32) -> (r: u32)
    ensures
        r == swap32(x),
{
    ((x & 0xffu32) << 24u32) | ((x & 0xff00u32) << 8u32) | ((x >> 8u32) & 0xff00u32) | (x >> 24u32)
}

/// Reverses the byte order of a 64-bit word.
pub fn swap_bytes64(x: u64) -> (r: u64)
    ensures
        r == swap64(x),
{
    ((x & 0xffu64) << 56u64) | ((x & 0xff00u64) << 40u64) | ((x & 0xff0000u64) << 24u64) | ((x
        & 0xff000000u64) << 8u64) | ((x >> 8u64) & 0xff000000u64) | ((x >> 24u64) & 0xff0000u64)
        | ((x >> 40u64) & 0xff00u64) | (x >> 56u64)
}

/// Whether a 32-bit integer is a Unicode scalar value, that is, a `char`.
pub open spec fn is_char_scalar(v: u32) -> bool {
    v < 0xD800 || (0xE000 <= v && v <= 0x10FFFF)
}

/// Calls `char::from_u32`, which std documents as returning the `char` with
/// that scalar value, and `None` exactly when the value is not one.
#[verifier::external_body]
fn char_from_u32(v: u32) -> (r: Option<char>)
    ensures
        r is Some <==> is_char_scalar(v),
        r matches Some(c) ==> c as u32 == v,
{
    char::from_u32(v)
}

/// The bytes that encode the payload of a primitive value.
pub open spec fn payload_bytes(p: Primitive) -> Seq<u8> {
    match p {
        Primitive::Unit => Seq::empty(),
        Primitive::Bool(b) => vu128_encoded_u32(if b { 1u32 } else { 0u32 }),
        Primitive::I8(x) => vu128_encoded_u32(zigzag32(x as i32)),
        Primitive::I16(x) => vu128_encoded_u32(zigzag32(x as i32)),
        Primitive::I32(x) => vu128_encoded_u32(zigzag32(x)),
        Primitive::I64(x) => vu128_encoded_u64(zigzag64(x)),
        Primitive::I128(x) => vu128_encoded_u128(zigzag128(x)),
        Primitive::U8(x) => vu128_encoded_u32(x as u32),
        Primitive::U16(x) => vu128_encoded_u32(x as u32),
        Primitive::U32(x) => vu128_encoded_u32(x),
        Primitive::U64(x) => vu128_encoded_u64(x),
        Primitive::U128(x) => vu128_encoded_u128(x),
        Primitive::F32(bits) => vu128_encoded_u32(swap32(bits)),
        Primitive::F64(bits) => vu128_encoded_u64(swap64(bits)),
        Primitive::Char(c) => vu128_encoded_u32(c as u32),
    }
}

/// The primitive of kind `t` read at `pos`, and the position after it.
pub open spec fn spec_read_payload(data: Seq<u8>, pos: int, t: PrimitiveType) -> Result<
    (Primitive, int),
    ReadError,
> {
    match t {
        PrimitiveType::Unit => Ok((Primitive::Unit, pos)),
        PrimitiveType::Bool => match spec_read_u32(data, pos) {
            None => Err(ReadError::Eof),
            Some((v, p)) => if v == 0 {
                Ok((Primitive::Bool(false), p))
            } else if v == 1 {
                Ok((Primitive::Bool(true), p))
            } else {
                Err(ReadError::IntConversion)
            },
        },
        PrimitiveType::I8 => match spec_read_i32(data, pos) {
            None => Err(ReadError::Eof),
            Some((v, p)) => if i8::MIN <= v <= i8::MAX {
                Ok((Primitive::I8(v as i8), p))
            } else {
                Err(ReadError::IntConversion)
            },
        },
        PrimitiveType::I16 => match spec_read_i32(data, pos) {
            None => Err(ReadError::Eof),
            Some((v, p)) => if i16::MIN <= v <= i16::MAX {
                Ok((Primitive::I16(v as i16), p))
            } else {
                Err(ReadError::IntConversion)
            },
        },
        PrimitiveType::I32 => match spec_read_i32(data, pos) {
            None => Err(ReadError::Eof),
            Some((v, p)) => Ok((Primitive::I32(v), p)),
        },
        PrimitiveType::I64 => match spec_read_i64(data, pos) {
            None => Err(ReadError::Eof),
            Some((v, p)) => Ok((Primitive::I64(v), p)),
        },
        PrimitiveType::I128 => match spec_read_i128(data, pos) {
            None => Err(ReadError::Eof),
            Some((v, p)) => Ok((Primitive::I128(v), p)),
        },
        PrimitiveType::U8 => match spec_read_u32(data, pos) {
            None => Err(ReadError::Eof),
            Some((v, p)) => if v <= u8::MAX {
                Ok((Primitive::U8(v as u8), p))
            } else {
                Err(ReadError::IntConversion)
            },
        },
        PrimitiveType::U16 => match spec_read_u32(data, pos) {
            None => Err(ReadError::Eof),
            Some((v, p)) => if v <= u16::MAX {
                Ok((Primitive::U16(v as u16), p))
            } else {
                Err(ReadError::IntConversion)
            },
        },
        PrimitiveType::U32 => match spec_read_u32(data, pos) {
            None => Err(ReadError::Eof),
            Some((v, p)) => Ok((Primitive::U32(v), p)),
        },
        PrimitiveType::U64 => match spec_read_u64(data, pos) {
            None => Err(ReadError::Eof),
            Some((v, p)) => Ok((Primitive::U64(v), p)),
        },
        PrimitiveType::U128 => match spec_read_u128(data, pos) {
            None => Err(ReadError::Eof),
            Some((v, p)) => Ok((Primitive::U128(v), p)),
        },
        PrimitiveType::F32 => match spec_read_u32(data, pos) {
            None => Err(ReadError::Eof),
            Some((v, p)) => Ok((Primitive::F32(swap32(v)), p)),
        },
        PrimitiveType::F64 => match spec_read_u64(data, pos) {
            None => Err(ReadError::Eof),
            Some((v, p)) => Ok((Primitive::F64(swap64(v)), p)),
        },
        PrimitiveType::Char => match spec_read_u32(data, pos) {
            None => Err(ReadError::Eof),
            Some((v, p)) => if is_char_scalar(v) {
                Ok((Primitive::Char(v as char), p))
            } else {
                Err(ReadError::InvalidChar)
            },
        },
    }
}

/// Reading a payload that starts within the input never goes backwards and
/// stops within the input.
pub proof fn lemma_read_payload_advances(data: Seq<u8>, pos: int, t: PrimitiveType)
    requires
        pos <= data.len(),
    ensures
        spec_read_payload(data, pos, t) matches Ok((_, q)) ==> pos <= q <= data.len(),
{
}

/// Appends the payload of `p`.  Whatever follows, reading a primitive of the
/// same kind at the old end gives `p` back and stops at the new end.
pub fn write_payload(out: &mut Vec<u8>, p: Primitive)
    ensures
        final(out)@ == old(out)@ + payload_bytes(p),
        forall|rest: Seq<u8>|
            #[trigger] spec_read_payload(final(out)@ + rest, old(out)@.len() as int, type_of(p))
                == Ok::<(Primitive, int), ReadError>((p, final(out)@.len() as int)),
{
    let ghost start = out@.len() as int;
    match p {
        Primitive::Unit => {
            assert(out@ =~= old(out)@ + payload_bytes(p));
        },
        Primitive::Bool(b) => write_u32(out, if b { 1u32 } else { 0u32 }),
        Primitive::I8(x) => write_i32(out, x as i32),
        Primitive::I16(x) => write_i32(out, x as i32),
        Primitive::I32(x) => write_i32(out, x),
        Primitive::I64(x) => write_i64(out, x),
        Primitive::I128(x) => write_i128(out, x),
        Primitive::U8(x) => write_u32(out, x as u32),
        Primitive::U16(x) => write_u32(out, x as u32),
        Primitive::U32(x) => write_u32(out, x),
        Primitive::U64(x) => write_u64(out, x),
        Primitive::U128(x) => write_u128(out, x),
        Primitive::F32(bits) => {
            proof {
                lemma_swap32_twice(bits);
            }
            write_u32(out, swap_bytes32(bits))
        },
        Primitive::F64(bits) => {
            proof {
                lemma_swap64_twice(bits);
            }
            write_u64(out, swap_bytes64(bits))
        },
        Primitive::Char(c) => {
            proof {
                vstd::utf8::char_u32_cast(c, c as u32);
                vstd::utf8::char_is_scalar(c);
            }
            write_u32(out, c as u32)
        },
    }
}

/// Reads a primitive of kind `t` at `pos`.
pub fn read_payload(data: &[u8], pos: usize, t: PrimitiveType) -> (r: Result<(Primitive, usize), ReadError>)
    requires
        pos <= data@.len(),
    ensures
        match r {
            Ok((p, q)) => spec_read_payload(data@, pos as int, t) == Ok::<(Primitive, int), ReadError>((p, q as int)) && q <= data@.len(),
            Err(e) => spec_read_payload(data@, pos as int, t) == Err::<(Primitive, int), ReadError>(e),
        },
{
    match t {
        PrimitiveType::Unit => Ok((Primitive::Unit, pos)),
        PrimitiveType::Bool => match read_u32(data, pos) {
            None => Err(ReadError::Eof),
            Some((v, p)) => if v == 0 {
                Ok((Primitive::Bool(false), p))
            } else if v == 1 {
                Ok((Primitive::Bool(true), p))
            } else {
                Err(ReadError::IntConversion)
            },
        },
        PrimitiveType::I8 => match read_i32(data, pos) {
            None => Err(ReadError::Eof),
            Some((v, p)) => if -128 <= v && v <= 127 {
                Ok((Primitive::I8(v as i8), p))
            } else {
                Err(ReadError::IntConversion)
            },
        },
        PrimitiveType::I16 => match read_i32(data, pos) {
            None => Err(ReadError::Eof),
            Some((v, p)) => if -32768 <= v && v <= 32767 {
                Ok((Primitive::I16(v as i16), p))
            } else {
                Err(ReadError::IntConversion)
            },
        },
        PrimitiveType::I32 => match read_i32(data, pos) {
            None => Err(ReadError::Eof),
            Some((v, p)) => Ok((Primitive::I32(v), p)),
        },
        PrimitiveType::I64 => match read_i64(data, pos) {
            None => Err(ReadError::Eof),
            Some((v, p)) => Ok((Primitive::I64(v), p)),
        },
        PrimitiveType::I128 => match read_i128(data, pos) {
            None => Err(ReadError::Eof),
            Some((v, p)) => Ok((Primitive::I128(v), p)),
        },
        PrimitiveType::U8 => match read_u32(data, pos) {
            None => Err(ReadError::Eof),
            Some((v, p)) => if v <= 255 {
                Ok((Primitive::U8(v as u8), p))
            } else {
                Err(ReadError::IntConversion)
            },
        },
        PrimitiveType::U16 => match read_u32(data, pos) {
            None => Err(ReadError::Eof),
            Some((v, p)) => if v <= 65535 {
                Ok((Primitive::U16(v as u16), p))
            } else {
                Err(ReadError::IntConversion)
            },
        },
        PrimitiveType::U32 => match read_u32(data, pos) {
            None => Err(ReadError::Eof),
            Some((v, p)) => Ok((Primitive::U32(v), p)),
        },
        PrimitiveType::U64 => match read_u64(data, pos) {
            None => Err(ReadError::Eof),
            Some((v, p)) => Ok((Primitive::U64(v), p)),
        },
        PrimitiveType::U128 => match read_u128(data, pos) {
            None => Err(ReadError::Eof),
            Some((v, p)) => Ok((Primitive::U128(v), p)),
        },
        PrimitiveType::F32 => match read_u32(data, pos) {
            None => Err(ReadError::Eof),
            Some((v, p)) => Ok((Primitive::F32(swap_bytes32(v)), p)),
        },
        PrimitiveType::F64 => match read_u64(data, pos) {
            None => Err(ReadError::Eof),
            Some((v, p)) => Ok((Primitive::F64(swap_bytes64(v)), p)),
        },
        PrimitiveType::Char => match read_u32(data, pos) {
            None => Err(ReadError::Eof),
            Some((v, p)) => match char_from_u32(v) {
                Some(c) => {
                    proof {
                        vstd::utf8::char_u32_cast(c, v);
                    }
                    Ok((Primitive::Char(c), p))
                },
                None => Err(ReadError::InvalidChar),
            },
        },
    }
}

} // verus!
