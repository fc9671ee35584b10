//! The self-describing binary format.
//!
//! Every value starts with a one-byte type tag.  Integers follow as `vu128`
//! values, strings and byte strings as a length and their bytes.  The field
//! names of structs and the variant names of enums are written once per
//! message as an enum definition (`EnumDef` tag, a count and the names) and
//! referred to afterwards by their index, so that a reader can match fields
//! and variants by name even when the writer's type orders them differently.
use vstd::prelude::*;
use crate::primitive::PrimitiveType;

pub mod decode;
pub mod encode;
pub mod full;
pub mod parse;
pub mod write;

verus! {

/// The first byte of every encoded value.
#[derive(Debug, Copy, Clone, Eq, Ord, PartialEq, PartialOrd, Hash)]
pub enum TypeTag {
    Unit,
    Bool,
    I8,
    I16,
    I32,
    I64,
    I128,
    U8,
    U16,
    U32,
    U64,
    U128,
    F32,
    F64,
    Char,
    Tuple,
    Struct,
    TupleStruct,
    UnitStruct,
    Enum,
    Sequence,
    Mapping,
    EnumDef,
    String,
    Bytes,
    OptionNone,
    OptionSome,
}

/// The byte of each tag.
pub open spec fn tag_byte(t: TypeTag) -> u8 {
    match t {
        TypeTag::Unit => 0,
        TypeTag::Bool => 1,
        TypeTag::I8 => 2,
        TypeTag::I16 => 3,
        TypeTag::I32 => 4,
        TypeTag::I64 => 5,
        TypeTag::I128 => 6,
        TypeTag::U8 => 7,
        TypeTag::U16 => 8,
        TypeTag::U32 => 9,
        TypeTag::U64 => 10,
        TypeTag::U128 => 11,
        TypeTag::F32 => 12,
        TypeTag::F64 => 13,
        TypeTag::Char => 14,
        TypeTag::Tuple => 15,
        TypeTag::Struct => 16,
        TypeTag::TupleStruct => 17,
        TypeTag::Enum => 18,
        TypeTag::Sequence => 19,
        TypeTag::Mapping => 20,
        TypeTag::EnumDef => 21,
        TypeTag::String => 22,
        TypeTag::UnitStruct => 23,
        TypeTag::Bytes => 24,
        TypeTag::OptionNone => 25,
        TypeTag::OptionSome => 26,
    }
}

/// The tag of a byte, if it is one.
pub open spec fn spec_tag_from_u8(b: u8) -> Option<TypeTag> {
    if b == 0 { Some(TypeTag::Unit) }
    else if b == 1 { Some(TypeTag::Bool) }
    else if b == 2 { Some(TypeTag::I8) }
    else if b == 3 { Some(TypeTag::I16) }
    else if b == 4 { Some(TypeTag::I32) }
    else if b == 5 { Some(TypeTag::I64) }
    else if b == 6 { Some(TypeTag::I128) }
    else if b == 7 { Some(TypeTag::U8) }
    else if b == 8 { Some(TypeTag::U16) }
    else if b == 9 { Some(TypeTag::U32) }
    else if b == 10 { Some(TypeTag::U64) }
    else if b == 11 { Some(TypeTag::U128) }
    else if b == 12 { Some(TypeTag::F32) }
    else if b == 13 { Some(TypeTag::F64) }
    else if b == 14 { Some(TypeTag::Char) }
    else if b == 15 { Some(TypeTag::Tuple) }
    else if b == 16 { Some(TypeTag::Struct) }
    else if b == 17 { Some(TypeTag::TupleStruct) }
    else if b == 18 { Some(TypeTag::Enum) }
    else if b == 19 { Some(TypeTag::Sequence) }
    else if b == 20 { Some(TypeTag::Mapping) }
    else if b == 21 { Some(TypeTag::EnumDef) }
    else if b == 22 { Some(TypeTag::String) }
    else if b == 23 { Some(TypeTag::UnitStruct) }
    else if b == 24 { Some(TypeTag::Bytes) }
    else if b == 25 { Some(TypeTag::OptionNone) }
    else if b == 26 { Some(TypeTag::OptionSome) }
    else { None }
}

/// Every tag is read back from its byte.
pub proof fn lemma_tag_round_trip(t: TypeTag)
    ensures
        spec_tag_from_u8(tag_byte(t)) == Some(t),
{
}

/// The tag that introduces a primitive of a kind.
pub open spec fn prim_tag(t: PrimitiveType) -> TypeTag {
    match t {
        PrimitiveType::Unit => TypeTag::Unit,
        PrimitiveType::Bool => TypeTag::Bool,
        PrimitiveType::I8 => TypeTag::I8,
        PrimitiveType::I16 => TypeTag::I16,
        PrimitiveType::I32 => TypeTag::I32,
        PrimitiveType::I64 => TypeTag::I64,
        PrimitiveType::I128 => TypeTag::I128,
        PrimitiveType::U8 => TypeTag::U8,
        PrimitiveType::U16 => TypeTag::U16,
        PrimitiveType::U32 => TypeTag::U32,
        PrimitiveType::U64 => TypeTag::U64,
        PrimitiveType::U128 => TypeTag::U128,
        PrimitiveType::F32 => TypeTag::F32,
        PrimitiveType::F64 => TypeTag::F64,
        PrimitiveType::Char => TypeTag::Char,
    }
}

impl TypeTag {
    /// The byte of this tag.
    pub fn to_u8(self) -> (r: u8)
        ensures
            r == tag_byte(self),
    {
        match self {
            TypeTag::Unit => 0,
            TypeTag::Bool => 1,
            TypeTag::I8 => 2,
            TypeTag::I16 => 3,
            TypeTag::I32 => 4,
            TypeTag::I64 => 5,
            TypeTag::I128 => 6,
            TypeTag::U8 => 7,
            TypeTag::U16 => 8,
            TypeTag::U32 => 9,
            TypeTag::U64 => 10,
            TypeTag::U128 => 11,
            TypeTag::F32 => 12,
            TypeTag::F64 => 13,
            TypeTag::Char => 14,
            TypeTag::Tuple => 15,
            TypeTag::Struct => 16,
            TypeTag::TupleStruct => 17,
            TypeTag::Enum => 18,
            TypeTag::Sequence => 19,
            TypeTag::Mapping => 20,
            TypeTag::EnumDef => 21,
            TypeTag::String => 22,
            TypeTag::UnitStruct => 23,
            TypeTag::Bytes => 24,
            TypeTag::OptionNone => 25,
            TypeTag::OptionSome => 26,
        }
    }

    /// The tag of a byte, if it is one.
    pub fn from_u8(b: u8) -> (r: Option<TypeTag>)
        ensures
            r == spec_tag_from_u8(b),
    {
        match b {
            0 => Some(TypeTag::Unit),
            1 => Some(TypeTag::Bool),
            2 => Some(TypeTag::I8),
            3 => Some(TypeTag::I16),
            4 => Some(TypeTag::I32),
            5 => Some(TypeTag::I64),
            6 => Some(TypeTag::I128),
            7 => Some(TypeTag::U8),
            8 => Some(TypeTag::U16),
            9 => Some(TypeTag::U32),
            10 => Some(TypeTag::U64),
            11 => Some(TypeTag::U128),
            12 => Some(TypeTag::F32),
            13 => Some(TypeTag::F64),
            14 => Some(TypeTag::Char),
            15 => Some(TypeTag::Tuple),
            16 => Some(TypeTag::Struct),
            17 => Some(TypeTag::TupleStruct),
            18 => Some(TypeTag::Enum),
            19 => Some(TypeTag::Sequence),
            20 => Some(TypeTag::Mapping),
            21 => Some(TypeTag::EnumDef),
            22 => Some(TypeTag::String),
            23 => Some(TypeTag::UnitStruct),
            24 => Some(TypeTag::Bytes),
            25 => Some(TypeTag::OptionNone),
            26 => Some(TypeTag::OptionSome),
            _ => None,
        }
    }

    /// The tag that introduces a primitive of a kind.
    pub fn of_primitive(t: PrimitiveType) -> (r: TypeTag)
        ensures
            r == prim_tag(t),
    {
        match t {
            PrimitiveType::Unit => TypeTag::Unit,
            PrimitiveType::Bool => TypeTag::Bool,
            PrimitiveType::I8 => TypeTag::I8,
            PrimitiveType::I16 => TypeTag::I16,
            PrimitiveType::I32 => TypeTag::I32,
            PrimitiveType::I64 => TypeTag::I64,
            PrimitiveType::I128 => TypeTag::I128,
            PrimitiveType::U8 => TypeTag::U8,
            PrimitiveType::U16 => TypeTag::U16,
            PrimitiveType::U32 => TypeTag::U32,
            PrimitiveType::U64 => TypeTag::U64,
            PrimitiveType::U128 => TypeTag::U128,
            PrimitiveType::F32 => TypeTag::F32,
            PrimitiveType::F64 => TypeTag::F64,
            PrimitiveType::Char => TypeTag::Char,
        }
    }
}

} // verus!
