//! Error values of the encoders and decoders.
use vstd::prelude::*;

verus! {

/// A value of one kind was found where another kind was expected.
#[derive(Debug, Clone, Copy, PartialEq, Eq)]
pub struct TypeMismatch {
    pub found: &'static str,
    pub expected: &'static str,
}

/// The nesting depth allowed to a decoder was exhausted.
#[derive(Debug, Clone, Copy, PartialEq, Eq)]
pub struct OverflowError;

/// A mismatch between the shape of the data and the shape of the target type.
#[derive(Debug, Clone, Copy, PartialEq, Eq)]
pub enum SchemaError {
    TupleTooShort,
    TupleTooLong { expected: usize },
    UnknownVariant,
}

/// Errors of the fixed-layout format.
#[derive(Debug, Clone, Copy, PartialEq, Eq)]
pub enum FixedError {
    UnsupportedHint,
    TrailingData,
    NonZeroPadding,
    UnexpectedEof,
    MissingSeqLength,
    MissingMapLength,
}

/// Errors of the self-describing binary decoder.
#[derive(Debug, Clone, Copy, PartialEq, Eq)]
pub enum BinDecoderError {
    TrailingData,
    NonZeroPadding,
    Eof,
    BadTag(u8),
    NoSuchEnumDef,
    MissingField(&'static str),
    NoSuchVariant(usize),
}

/// Errors of the self-describing binary encoder.
#[derive(Debug, Clone, Copy, PartialEq, Eq)]
pub enum BinEncoderError {
    MissingLen,
}

/// Errors of the self-describing binary parser.
#[derive(Debug, Clone, Copy, PartialEq, Eq)]
pub enum BinParserError {
    TooMuchPadding,
    NonZeroPadding,
    Eof,
    BadTag,
    NoSuchEnumDef,
    NoMoreStructKeys,
    NoSuchVariant,
}

/// Errors of the self-describing binary writer.
#[derive(Debug, Clone, Copy, PartialEq, Eq)]
pub enum BinWriterError {
    MissingLen,
}

/// Misuse of the nested decoder handles (an out-of-order call).
#[derive(Debug, Clone, Copy, PartialEq, Eq)]
pub enum DecodePoisonError {
    UnexpectedDecodeState,
}

/// Misuse of the nested encoder handles (an out-of-order call).
#[derive(Debug, Clone, Copy, PartialEq, Eq)]
pub enum EncodePoisonError {
    UnexpectedEncodeState,
}

/// Misuse of the nested parser handles; the message names the misuse.
#[derive(Debug, Clone, Copy, PartialEq, Eq)]
pub struct ParsePoisonError(pub &'static str);

/// Every error that an operation of this library can return.
#[derive(Debug, Clone, Copy, PartialEq, Eq)]
pub enum Error {
    TypeMismatch(TypeMismatch),
    Overflow(OverflowError),
    Schema(SchemaError),
    Fixed(FixedError),
    BinDecoder(BinDecoderError),
    BinEncoder(BinEncoderError),
    BinParser(BinParserError),
    BinWriter(BinWriterError),
    DecodePoison(DecodePoisonError),
    EncodePoison(EncodePoisonError),
    ParsePoison(ParsePoisonError),
    /// An integer did not fit the target integer type.
    IntConversion,
    /// An integer was not a Unicode scalar value.
    InvalidChar,
    /// A byte string was not valid UTF-8.
    InvalidUtf8,
}

/// Failure of a low-level read of a primitive payload.
#[derive(Debug, Clone, Copy, PartialEq, Eq)]
pub enum ReadError {
    Eof,
    IntConversion,
    InvalidChar,
}

} // verus!
