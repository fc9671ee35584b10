//! The parsing interface: hints that a target type gives to a parser, and
//! the pieces of the parser that checks the order of its handles.
use vstd::prelude::*;
use crate::error::Error;
use crate::primitive::PrimitiveType;

pub mod poison;

pub use crate::error::TypeMismatch;

verus! {

/// What the target type expects to find next.
#[derive(Debug, Copy, Clone)]
pub enum ParseHint {
    Any,
    Primitive(PrimitiveType),
    String,
    Bytes,
    Option,
    UnitStruct { name: &'static str },
    Sequence,
    Tuple { len: usize },
    TupleStruct { name: &'static str, len: usize },
    Mapping,
    Struct { name: &'static str, fields: &'static [&'static str] },
    Enum { name: &'static str, variants: &'static [&'static str] },
    Identifier,
}

/// What the target type expects to find in the payload of an enum variant.
#[derive(Debug, Copy, Clone)]
pub enum ParseVariantHint {
    UnitVariant,
    TupleVariant,
    StructVariant,
}

/// The handle of a map entry, read with a parser of type `P`: its key, then
/// its value, then its end; `'q` is how long a handle it gives borrows it.
pub trait EntryParser<'q, P>: Sized {
    /// The handle of the key or the value, borrowed from the entry for `'q`.
    type AnyParser;

    /// Whether the entry can still be asked for its key, value or end.
    spec fn ready(&self) -> bool;

    fn parse_key(&'q mut self, parser: &mut P) -> (r: Result<Self::AnyParser, Error>)
        requires
            old(self).ready(),
        ensures
            final(self).ready(),
    ;

    fn parse_value(&'q mut self, parser: &mut P) -> (r: Result<Self::AnyParser, Error>)
        requires
            old(self).ready(),
        ensures
            final(self).ready(),
    ;

    fn parse_end(self, parser: &mut P) -> (r: Result<(), Error>)
        requires
            self.ready(),
    ;
}

} // verus!
