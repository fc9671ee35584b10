//! The fixed-layout format: no tags and no names.  Values are written as the
//! target type lays them out, so a reader must know the type: primitives are
//! `vu128` payloads, strings and byte strings a length and their bytes,
//! options a boolean, sequences and maps a length, and enum variants an index
//! whose width depends on the number of variants.
use vstd::prelude::*;
use crate::decode::DecodeHint;
use crate::error::{Error, FixedError, ReadError};
use crate::fixed::decode::FixedAnyDecoder;
use crate::payload::{lemma_read_payload_advances, spec_read_payload};
use crate::primitive::{Primitive, PrimitiveType, integer_bounds, integer_value, type_of};
use crate::text::spec_utf8_string;
use crate::vu128::{spec_read_u32, spec_read_u64, vu128_encoded_u32, vu128_encoded_u64};

pub mod decode;
pub mod encode;
pub mod full;

verus! {

/// The width in which an enum's variant index is written.
#[derive(Debug, Copy, Clone, PartialEq, Eq, Structural)]
pub enum DiscriminantWidth {
    U8,
    U16,
    U32,
    U64,
}

/// The width for an enum with `max` variants.
pub open spec fn width_of(max: usize) -> DiscriminantWidth {
    if max <= 0x100 {
        DiscriminantWidth::U8
    } else if max <= 0x1_0000 {
        DiscriminantWidth::U16
    } else if max <= 0x1_0000_0000 {
        DiscriminantWidth::U32
    } else {
        DiscriminantWidth::U64
    }
}

impl DiscriminantWidth {
    /// The width for an enum with `max` variants.
    pub fn from_max(max: usize) -> (r: Self)
        ensures
            r == width_of(max),
    {
        if max <= 0x100 {
            DiscriminantWidth::U8
        } else if max <= 0x1_0000 {
            DiscriminantWidth::U16
        } else if max as u64 <= 0x1_0000_0000u64 {
            DiscriminantWidth::U32
        } else {
            DiscriminantWidth::U64
        }
    }
}

/// The bytes of variant `index` of an enum with `max` variants: the index,
/// cut to the width, as a `vu128` value.
pub open spec fn discriminant_bytes(index: usize, max: usize) -> Seq<u8> {
    match width_of(max) {
        DiscriminantWidth::U8 => vu128_encoded_u32((index as u8) as u32),
        DiscriminantWidth::U16 => vu128_encoded_u32((index as u16) as u32),
        DiscriminantWidth::U32 => vu128_encoded_u32(index as u32),
        DiscriminantWidth::U64 => vu128_encoded_u64(index as u64),
    }
}

/// The error of a failed low-level read in this format.
pub open spec fn fixed_read_error(e: ReadError) -> Error {
    match e {
        ReadError::Eof => Error::Fixed(FixedError::UnexpectedEof),
        ReadError::IntConversion => Error::IntConversion,
        ReadError::InvalidChar => Error::InvalidChar,
    }
}

/// Reads the variant index of an enum with `max` variants: a `vu128` value
/// that must fit the width.
pub open spec fn spec_read_discriminant(data: Seq<u8>, pos: int, max: usize) -> Result<(usize, int), Error> {
    match width_of(max) {
        DiscriminantWidth::U64 => match spec_read_u64(data, pos) {
            Some((v, p)) => Ok((v as usize, p)),
            None => Err(Error::Fixed(FixedError::UnexpectedEof)),
        },
        w => match spec_read_u32(data, pos) {
            None => Err(Error::Fixed(FixedError::UnexpectedEof)),
            Some((v, p)) => if (w == DiscriminantWidth::U8 && v > u8::MAX) || (w == DiscriminantWidth::U16
                && v > u16::MAX) {
                Err(Error::IntConversion)
            } else {
                Ok((v as usize, p))
            },
        },
    }
}

/// The variant index read as a primitive of kind `t`: it must fit an integer
/// kind; other kinds are not supported.
pub open spec fn discriminant_prim(disc: usize, t: PrimitiveType) -> Result<Primitive, Error> {
    match t {
        PrimitiveType::I8 => if disc <= i8::MAX { Ok(Primitive::I8(disc as i8)) } else { Err(Error::IntConversion) },
        PrimitiveType::I16 => if disc <= i16::MAX { Ok(Primitive::I16(disc as i16)) } else { Err(Error::IntConversion) },
        PrimitiveType::I32 => if disc <= i32::MAX { Ok(Primitive::I32(disc as i32)) } else { Err(Error::IntConversion) },
        PrimitiveType::I64 => if disc <= i64::MAX { Ok(Primitive::I64(disc as i64)) } else { Err(Error::IntConversion) },
        PrimitiveType::I128 => Ok(Primitive::I128(disc as i128)),
        PrimitiveType::U8 => if disc <= u8::MAX { Ok(Primitive::U8(disc as u8)) } else { Err(Error::IntConversion) },
        PrimitiveType::U16 => if disc <= u16::MAX { Ok(Primitive::U16(disc as u16)) } else { Err(Error::IntConversion) },
        PrimitiveType::U32 => if disc <= u32::MAX { Ok(Primitive::U32(disc as u32)) } else { Err(Error::IntConversion) },
        PrimitiveType::U64 => Ok(Primitive::U64(disc as u64)),
        PrimitiveType::U128 => Ok(Primitive::U128(disc as u128)),
        _ => Err(Error::Fixed(FixedError::UnsupportedHint)),
    }
}

/// A variant index read as a primitive is the index itself: asked for as an
/// integer kind it fits, it comes back as a value of that kind equal to the
/// index; past the kind's greatest value it is refused with
/// `IntConversion`; any other kind is not supported.
pub proof fn law_discriminant_as_integer(disc: usize, t: PrimitiveType)
    ensures
        match integer_bounds(t) {
            Some((lo, hi)) => if disc <= hi {
                discriminant_prim(disc, t) matches Ok(p) && type_of(p) == t && integer_value(p) == Some(disc as int)
            } else {
                discriminant_prim(disc, t) == Err::<Primitive, Error>(Error::IntConversion)
            },
            None => discriminant_prim(disc, t) == Err::<Primitive, Error>(Error::Fixed(FixedError::UnsupportedHint)),
        },
{
}

/// Decoding the handle of a variant index as a primitive reads no input and
/// gives the index itself: for an integer kind it fits, a value of that
/// kind equal to the index, at the same position.
pub proof fn law_decode_discriminant_as_integer(data: Seq<u8>, pos: int, disc: usize, t: PrimitiveType)
    ensures
        match integer_bounds(t) {
            Some((lo, hi)) => if disc <= hi {
                spec_fixed_decode(data, pos, FixedAnyDecoder::Discriminant(disc), DecodeHint::Primitive(t)) matches Ok(
                    (FixedValue::Primitive(p), q),
                ) && q == pos && type_of(p) == t && integer_value(p) == Some(disc as int)
            } else {
                spec_fixed_decode(data, pos, FixedAnyDecoder::Discriminant(disc), DecodeHint::Primitive(t)) is Err
            },
            None => spec_fixed_decode(data, pos, FixedAnyDecoder::Discriminant(disc), DecodeHint::Primitive(t)) is Err,
        },
{
    law_discriminant_as_integer(disc, t);
}

/// A length: a `u64` that must fit a `usize`.
pub open spec fn spec_fixed_read_len(data: Seq<u8>, pos: int) -> Result<(usize, int), Error> {
    match spec_read_u64(data, pos) {
        None => Err(Error::Fixed(FixedError::UnexpectedEof)),
        Some((v, p)) => if v <= usize::MAX { Ok((v as usize, p)) } else { Err(Error::IntConversion) },
    }
}

/// A byte string: its length, then its bytes.
pub open spec fn spec_fixed_read_bytes(data: Seq<u8>, pos: int) -> Result<(Seq<u8>, int), Error> {
    match spec_fixed_read_len(data, pos) {
        Err(e) => Err(e),
        Ok((n, p)) => if p + n <= data.len() {
            Ok((data.subrange(p, p + n), p + n))
        } else {
            Err(Error::Fixed(FixedError::UnexpectedEof))
        },
    }
}

/// A text: a byte string that must be UTF-8.
pub open spec fn spec_fixed_read_text(data: Seq<u8>, pos: int) -> Result<(Seq<char>, int), Error> {
    match spec_fixed_read_bytes(data, pos) {
        Err(e) => Err(e),
        Ok((b, p)) => match spec_utf8_string(b) {
            Some(s) => Ok((s, p)),
            None => Err(Error::InvalidUtf8),
        },
    }
}

/// What one decoding step finds, as values.
pub enum FixedValue {
    Primitive(Primitive),
    Text(Seq<char>),
    ByteString(Seq<u8>),
    Absent,
    Present,
    Items(usize),
    Entries(usize),
    Variant(usize),
}

/// One decoding step at `pos` of a value of the shape `hint` says; `any` is
/// the variant index still to be given out, if the step reads a
/// discriminant.  The result is the value and the position after it.
pub open spec fn spec_fixed_decode(data: Seq<u8>, pos: int, any: FixedAnyDecoder, hint: DecodeHint) -> Result<
    (FixedValue, int),
    Error,
> {
    match any {
        FixedAnyDecoder::Discriminant(disc) => match hint {
            DecodeHint::Primitive(t) => match discriminant_prim(disc, t) {
                Ok(p) => Ok((FixedValue::Primitive(p), pos)),
                Err(e) => Err(e),
            },
            _ => Err(Error::Fixed(FixedError::UnsupportedHint)),
        },
        FixedAnyDecoder::Any => match hint {
            DecodeHint::Primitive(t) => match spec_read_payload(data, pos, t) {
                Ok((p, q)) => Ok((FixedValue::Primitive(p), q)),
                Err(e) => Err(fixed_read_error(e)),
            },
            DecodeHint::String => match spec_fixed_read_text(data, pos) {
                Ok((s, q)) => Ok((FixedValue::Text(s), q)),
                Err(e) => Err(e),
            },
            DecodeHint::Bytes => match spec_fixed_read_bytes(data, pos) {
                Ok((b, q)) => Ok((FixedValue::ByteString(b), q)),
                Err(e) => Err(e),
            },
            DecodeHint::Option => match spec_read_payload(data, pos, PrimitiveType::Bool) {
                Ok((Primitive::Bool(true), q)) => Ok((FixedValue::Present, q)),
                Ok((_, q)) => Ok((FixedValue::Absent, q)),
                Err(e) => Err(fixed_read_error(e)),
            },
            DecodeHint::UnitStruct { name } => Ok((FixedValue::Primitive(Primitive::Unit), pos)),
            DecodeHint::Sequence => match spec_read_u64(data, pos) {
                Some((v, q)) => Ok((FixedValue::Items(v as usize), q)),
                None => Err(Error::Fixed(FixedError::UnexpectedEof)),
            },
            DecodeHint::Tuple { len } => Ok((FixedValue::Items(len), pos)),
            DecodeHint::TupleStruct { name, len } => Ok((FixedValue::Items(len), pos)),
            DecodeHint::Mapping => match spec_read_u64(data, pos) {
                Some((v, q)) => Ok((FixedValue::Entries(v as usize), q)),
                None => Err(Error::Fixed(FixedError::UnexpectedEof)),
            },
            DecodeHint::Struct { name, fields } => Ok((FixedValue::Items(fields@.len() as usize), pos)),
            DecodeHint::Enum { name, variants } => match spec_read_discriminant(data, pos, variants@.len() as usize) {
                Ok((d, q)) => Ok((FixedValue::Variant(d), q)),
                Err(e) => Err(e),
            },
            _ => Err(Error::Fixed(FixedError::UnsupportedHint)),
        },
    }
}

/// A fixed-layout value read from the input ends at or after the position it
/// starts at, and within the input.
pub proof fn lemma_fixed_decode_advances(data: Seq<u8>, pos: int, any: FixedAnyDecoder, hint: DecodeHint)
    requires
        0 <= pos <= data.len(),
    ensures
        spec_fixed_decode(data, pos, any, hint) matches Ok((_, q)) ==> pos <= q <= data.len(),
{
    match hint {
        DecodeHint::Primitive(t) => lemma_read_payload_advances(data, pos, t),
        DecodeHint::Option => lemma_read_payload_advances(data, pos, PrimitiveType::Bool),
        _ => {},
    }
}

} // verus!
