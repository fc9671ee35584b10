//! Primitive values of the data model and their kinds.
use vstd::prelude::*;
use crate::error::{Error, TypeMismatch};

verus! {

/// A primitive value.  Floating-point values are carried by their IEEE-754
/// bit patterns (`f32::to_bits`, `f64::to_bits`).
#[derive(Debug, Clone, Copy, PartialEq, Eq)]
pub enum Primitive {
    Unit,
    Bool(bool),
    I8(i8),
    I16(i16),
    I32(i32),
    I64(i64),
    I128(i128),
    U8(u8),
    U16(u16),
    U32(u32),
    U64(u64),
    U128(u128),
    F32(u32),
    F64(u64),
    Char(char),
}

/// The kind of a primitive value, used as a decoding hint.
#[derive(Debug, Copy, Clone, Eq, Ord, PartialEq, PartialOrd, Hash)]
pub enum PrimitiveType {
    Unit,
    Bool,
    I8,
    I16,
    I32,
    I64,
    I128,
    U8,
    U16,
    U32,
    U64,
    U128,
    F32,
    F64,
    Char,
}

/// The kind of a primitive value.
pub open spec fn type_of(p: Primitive) -> PrimitiveType {
    match p {
        Primitive::Unit => PrimitiveType::Unit,
        Primitive::Bool(_) => PrimitiveType::Bool,
        Primitive::I8(_) => PrimitiveType::I8,
        Primitive::I16(_) => PrimitiveType::I16,
        Primitive::I32(_) => PrimitiveType::I32,
        Primitive::I64(_) => PrimitiveType::I64,
        Primitive::I128(_) => PrimitiveType::I128,
        Primitive::U8(_) => PrimitiveType::U8,
        Primitive::U16(_) => PrimitiveType::U16,
        Primitive::U32(_) => PrimitiveType::U32,
        Primitive::U64(_) => PrimitiveType::U64,
        Primitive::U128(_) => PrimitiveType::U128,
        Primitive::F32(_) => PrimitiveType::F32,
        Primitive::F64(_) => PrimitiveType::F64,
        Primitive::Char(_) => PrimitiveType::Char,
    }
}

/// The name of a primitive kind, as used in type-mismatch errors.
pub open spec fn kind_name(t: PrimitiveType) -> &'static str {
    match t {
        PrimitiveType::Unit => "unit",
        PrimitiveType::Bool => "bool",
        PrimitiveType::I8 => "i8",
        PrimitiveType::I16 => "i16",
        PrimitiveType::I32 => "i32",
        PrimitiveType::I64 => "i64",
        PrimitiveType::I128 => "i128",
        PrimitiveType::U8 => "u8",
        PrimitiveType::U16 => "u16",
        PrimitiveType::U32 => "u32",
        PrimitiveType::U64 => "u64",
        PrimitiveType::U128 => "u128",
        PrimitiveType::F32 => "f32",
        PrimitiveType::F64 => "f64",
        PrimitiveType::Char => "char",
    }
}

/// The integer that an integral primitive stands for (`bool` as 0 or 1, `char`
/// as its scalar value); `None` for the floating-point kinds.
pub open spec fn integer_value(p: Primitive) -> Option<int> {
    match p {
        Primitive::Unit => Some(0),
        Primitive::Bool(b) => Some(if b { 1int } else { 0int }),
        Primitive::I8(x) => Some(x as int),
        Primitive::I16(x) => Some(x as int),
        Primitive::I32(x) => Some(x as int),
        Primitive::I64(x) => Some(x as int),
        Primitive::I128(x) => Some(x as int),
        Primitive::U8(x) => Some(x as int),
        Primitive::U16(x) => Some(x as int),
        Primitive::U32(x) => Some(x as int),
        Primitive::U64(x) => Some(x as int),
        Primitive::U128(x) => Some(x as int),
        Primitive::F32(_) => None,
        Primitive::F64(_) => None,
        Primitive::Char(c) => Some(c as int),
    }
}

/// The least and the greatest value of an integer kind; `None` for the
/// kinds that are not integers.
pub open spec fn integer_bounds(t: PrimitiveType) -> Option<(int, int)> {
    match t {
        PrimitiveType::I8 => Some((-0x80, 0x7f)),
        PrimitiveType::I16 => Some((-0x8000, 0x7fff)),
        PrimitiveType::I32 => Some((-0x8000_0000, 0x7fff_ffff)),
        PrimitiveType::I64 => Some((-0x8000_0000_0000_0000, 0x7fff_ffff_ffff_ffff)),
        PrimitiveType::I128 => Some((-0x8000_0000_0000_0000_0000_0000_0000_0000, 0x7fff_ffff_ffff_ffff_ffff_ffff_ffff_ffff)),
        PrimitiveType::U8 => Some((0, 0xff)),
        PrimitiveType::U16 => Some((0, 0xffff)),
        PrimitiveType::U32 => Some((0, 0xffff_ffff)),
        PrimitiveType::U64 => Some((0, 0xffff_ffff_ffff_ffff)),
        PrimitiveType::U128 => Some((0, 0xffff_ffff_ffff_ffff_ffff_ffff_ffff_ffff)),
        _ => None,
    }
}

/// The result of converting a primitive into a `usize` index.
pub open spec fn spec_to_usize(p: Primitive) -> Result<usize, Error> {
    match integer_value(p) {
        None => Err(Error::TypeMismatch(TypeMismatch { found: kind_name(type_of(p)), expected: "u8" })),
        Some(v) => if 0 <= v <= usize::MAX { Ok(v as usize) } else { Err(Error::IntConversion) },
    }
}

/// A primitive converts to the index equal to its integer value, exactly
/// when it has one that a `usize` holds.
pub proof fn law_to_usize_keeps_value(p: Primitive)
    ensures
        spec_to_usize(p) matches Ok(n) ==> integer_value(p) == Some(n as int),
        spec_to_usize(p) is Ok <==> (integer_value(p) matches Some(v) && 0 <= v <= usize::MAX),
{
}

impl PrimitiveType {
    /// The name of this kind.
    pub fn name(&self) -> (r: &'static str)
        ensures
            r == kind_name(*self),
    {
        match self {
            PrimitiveType::Unit => "unit",
            PrimitiveType::Bool => "bool",
            PrimitiveType::I8 => "i8",
            PrimitiveType::I16 => "i16",
            PrimitiveType::I32 => "i32",
            PrimitiveType::I64 => "i64",
            PrimitiveType::I128 => "i128",
            PrimitiveType::U8 => "u8",
            PrimitiveType::U16 => "u16",
            PrimitiveType::U32 => "u32",
            PrimitiveType::U64 => "u64",
            PrimitiveType::U128 => "u128",
            PrimitiveType::F32 => "f32",
            PrimitiveType::F64 => "f64",
            PrimitiveType::Char => "char",
        }
    }
}

impl Primitive {
    /// The kind of this value.
    pub fn primitive_type(&self) -> (r: PrimitiveType)
        ensures
            r == type_of(*self),
    {
        match self {
            Primitive::Unit => PrimitiveType::Unit,
            Primitive::Bool(_) => PrimitiveType::Bool,
            Primitive::I8(_) => PrimitiveType::I8,
            Primitive::I16(_) => PrimitiveType::I16,
            Primitive::I32(_) => PrimitiveType::I32,
            Primitive::I64(_) => PrimitiveType::I64,
            Primitive::I128(_) => PrimitiveType::I128,
            Primitive::U8(_) => PrimitiveType::U8,
            Primitive::U16(_) => PrimitiveType::U16,
            Primitive::U32(_) => PrimitiveType::U32,
            Primitive::U64(_) => PrimitiveType::U64,
            Primitive::U128(_) => PrimitiveType::U128,
            Primitive::F32(_) => PrimitiveType::F32,
            Primitive::F64(_) => PrimitiveType::F64,
            Primitive::Char(_) => PrimitiveType::Char,
        }
    }

    /// The name of the kind of this value.
    pub fn kind(&self) -> (r: &'static str)
        ensures
            r == kind_name(type_of(*self)),
    {
        self.primitive_type().name()
    }

    /// The error reported when this value is found where `expected` was wanted.
    pub fn mismatch(&self, expected: &'static str) -> (r: Error)
        ensures
            r == Error::TypeMismatch(TypeMismatch { found: kind_name(type_of(*self)), expected }),
    {
        Error::TypeMismatch(TypeMismatch { found: self.kind(), expected })
    }

    /// Converts an integral value (or unit, `bool`, `char`) into a `usize`.
    pub fn to_usize(self) -> (r: Result<usize, Error>)
        ensures
            r == spec_to_usize(self),
    {
        match self {
            Primitive::Unit => Ok(0),
            Primitive::Bool(x) => Ok(if x { 1 } else { 0 }),
            Primitive::I8(x) => if x >= 0 { Ok(x as usize) } else { Err(Error::IntConversion) },
            Primitive::I16(x) => if x >= 0 { Ok(x as usize) } else { Err(Error::IntConversion) },
            Primitive::I32(x) => if x >= 0 { Ok(x as usize) } else { Err(Error::IntConversion) },
            Primitive::I64(x) => if x >= 0 && x as u64 <= usize::MAX as u64 {
                Ok(x as usize)
            } else {
                Err(Error::IntConversion)
            },
            Primitive::I128(x) => if x >= 0 && x as u128 <= usize::MAX as u128 {
                Ok(x as usize)
            } else {
                Err(Error::IntConversion)
            },
            Primitive::U8(x) => Ok(x as usize),
            Primitive::U16(x) => Ok(x as usize),
            Primitive::U32(x) => if x as u64 <= usize::MAX as u64 {
                Ok(x as usize)
            } else {
                Err(Error::IntConversion)
            },
            Primitive::U64(x) => if x <= usize::MAX as u64 { Ok(x as usize) } else { Err(Error::IntConversion) },
            Primitive::U128(x) => if x <= usize::MAX as u128 {
                Ok(x as usize)
            } else {
                Err(Error::IntConversion)
            },
            Primitive::F32(_) => Err(self.mismatch("u8")),
            Primitive::F64(_) => Err(self.mismatch("u8")),
            Primitive::Char(x) => Ok((x as u32) as usize),
        }
    }
}

} // verus!
