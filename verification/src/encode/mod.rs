//! The encoding interface: the operations an encoder offers, each taking the
//! handle that the previous operation returned.
use vstd::prelude::*;
use crate::error::Error;
use crate::primitive::Primitive;

pub mod poison;

verus! {

/// The operations of an encoder.  A format implements this trait; the poison
/// encoder implements it around another encoder.
///
/// Each operation comes with a spec function that says, of the state before
/// the call, which results and which following states (`next`) it may give.
pub trait SpecEncoder: Sized {
    type AnySpecEncoder;
    type SomeCloser;
    type TupleEncoder;
    type SeqEncoder;
    type MapEncoder;
    type ValueEncoder;
    type EntryCloser;
    type TupleStructEncoder;
    type StructEncoder;
    type TupleVariantEncoder;
    type StructVariantEncoder;

    spec fn encode_prim_spec(&self, any: Self::AnySpecEncoder, prim: Primitive, r: Result<(), Error>, next: Self) -> bool;

    fn encode_prim(&mut self, any: Self::AnySpecEncoder, prim: Primitive) -> (r: Result<(), Error>)
        ensures
            old(self).encode_prim_spec(any, prim, r, *final(self)),
    ;

    spec fn encode_str_spec(&self, any: Self::AnySpecEncoder, s: Seq<char>, r: Result<(), Error>, next: Self) -> bool;

    fn encode_str(&mut self, any: Self::AnySpecEncoder, s: &str) -> (r: Result<(), Error>)
        ensures
            old(self).encode_str_spec(any, s@, r, *final(self)),
    ;

    spec fn encode_bytes_spec(&self, any: Self::AnySpecEncoder, s: Seq<u8>, r: Result<(), Error>, next: Self) -> bool;

    fn encode_bytes(&mut self, any: Self::AnySpecEncoder, s: &[u8]) -> (r: Result<(), Error>)
        ensures
            old(self).encode_bytes_spec(any, s@, r, *final(self)),
    ;

    spec fn encode_none_spec(&self, any: Self::AnySpecEncoder, r: Result<(), Error>, next: Self) -> bool;

    fn encode_none(&mut self, any: Self::AnySpecEncoder) -> (r: Result<(), Error>)
        ensures
            old(self).encode_none_spec(any, r, *final(self)),
    ;

    spec fn encode_some_spec(
        &self,
        any: Self::AnySpecEncoder,
        r: Result<(Self::AnySpecEncoder, Self::SomeCloser), Error>,
        next: Self,
    ) -> bool;

    fn encode_some(&mut self, any: Self::AnySpecEncoder) -> (r: Result<
        (Self::AnySpecEncoder, Self::SomeCloser),
        Error,
    >)
        ensures
            old(self).encode_some_spec(any, r, *final(self)),
    ;

    spec fn encode_unit_struct_spec(
        &self,
        any: Self::AnySpecEncoder,
        name: &'static str,
        r: Result<(), Error>,
        next: Self,
    ) -> bool;

    fn encode_unit_struct(&mut self, any: Self::AnySpecEncoder, name: &'static str) -> (r: Result<
        (),
        Error,
    >)
        ensures
            old(self).encode_unit_struct_spec(any, name, r, *final(self)),
    ;

    spec fn encode_tuple_struct_spec(
        &self,
        any: Self::AnySpecEncoder,
        name: &'static str,
        len: usize,
        r: Result<Self::TupleStructEncoder, Error>,
        next: Self,
    ) -> bool;

    fn encode_tuple_struct(
        &mut self,
        any: Self::AnySpecEncoder,
        name: &'static str,
        len: usize,
    ) -> (r: Result<Self::TupleStructEncoder, Error>)
        ensures
            old(self).encode_tuple_struct_spec(any, name, len, r, *final(self)),
    ;

    spec fn encode_struct_spec(
        &self,
        any: Self::AnySpecEncoder,
        name: &'static str,
        fields: &'static [&'static str],
        r: Result<Self::StructEncoder, Error>,
        next: Self,
    ) -> bool;

    fn encode_struct(
        &mut self,
        any: Self::AnySpecEncoder,
        name: &'static str,
        fields: &'static [&'static str],
    ) -> (r: Result<Self::StructEncoder, Error>)
        ensures
            old(self).encode_struct_spec(any, name, fields, r, *final(self)),
    ;

    spec fn encode_unit_variant_spec(
        &self,
        any: Self::AnySpecEncoder,
        name: &'static str,
        variants: &'static [&'static str],
        variant_index: usize,
        r: Result<(), Error>,
        next: Self,
    ) -> bool;

    fn encode_unit_variant(
        &mut self,
        any: Self::AnySpecEncoder,
        name: &'static str,
        variants: &'static [&'static str],
        variant_index: usize,
    ) -> (r: Result<(), Error>)
        ensures
            old(self).encode_unit_variant_spec(any, name, variants, variant_index, r, *final(self)),
    ;

    spec fn encode_tuple_variant_spec(
        &self,
        any: Self::AnySpecEncoder,
        name: &'static str,
        variants: &'static [&'static str],
        variant_index: usize,
        len: usize,
        r: Result<Self::TupleVariantEncoder, Error>,
        next: Self,
    ) -> bool;

    fn encode_tuple_variant(
        &mut self,
        any: Self::AnySpecEncoder,
        name: &'static str,
        variants: &'static [&'static str],
        variant_index: usize,
        len: usize,
    ) -> (r: Result<Self::TupleVariantEncoder, Error>)
        ensures
            old(self).encode_tuple_variant_spec(any, name, variants, variant_index, len, r, *final(self)),
    ;

    spec fn encode_struct_variant_spec(
        &self,
        any: Self::AnySpecEncoder,
        name: &'static str,
        variants: &'static [&'static str],
        variant_index: usize,
        fields: &'static [&'static str],
        r: Result<Self::StructVariantEncoder, Error>,
        next: Self,
    ) -> bool;

    fn encode_struct_variant(
        &mut self,
        any: Self::AnySpecEncoder,
        name: &'static str,
        variants: &'static [&'static str],
        variant_index: usize,
        fields: &'static [&'static str],
    ) -> (r: Result<Self::StructVariantEncoder, Error>)
        ensures
            old(self).encode_struct_variant_spec(any, name, variants, variant_index, fields, r, *final(self)),
    ;

    spec fn encode_seq_spec(
        &self,
        any: Self::AnySpecEncoder,
        len: Option<usize>,
        r: Result<Self::SeqEncoder, Error>,
        next: Self,
    ) -> bool;

    fn encode_seq(&mut self, any: Self::AnySpecEncoder, len: Option<usize>) -> (r: Result<
        Self::SeqEncoder,
        Error,
    >)
        ensures
            old(self).encode_seq_spec(any, len, r, *final(self)),
    ;

    spec fn encode_tuple_spec(
        &self,
        any: Self::AnySpecEncoder,
        len: usize,
        r: Result<Self::TupleEncoder, Error>,
        next: Self,
    ) -> bool;

    fn encode_tuple(&mut self, any: Self::AnySpecEncoder, len: usize) -> (r: Result<
        Self::TupleEncoder,
        Error,
    >)
        ensures
            old(self).encode_tuple_spec(any, len, r, *final(self)),
    ;

    spec fn encode_map_spec(
        &self,
        any: Self::AnySpecEncoder,
        len: Option<usize>,
        r: Result<Self::MapEncoder, Error>,
        next: Self,
    ) -> bool;

    fn encode_map(&mut self, any: Self::AnySpecEncoder, len: Option<usize>) -> (r: Result<
        Self::MapEncoder,
        Error,
    >)
        ensures
            old(self).encode_map_spec(any, len, r, *final(self)),
    ;

    spec fn some_end_spec(&self, some: Self::SomeCloser, r: Result<(), Error>, next: Self) -> bool;

    fn some_end(&mut self, some: Self::SomeCloser) -> (r: Result<(), Error>)
        ensures
            old(self).some_end_spec(some, r, *final(self)),
    ;

    spec fn tuple_encode_element_spec(
        &self,
        tuple: Self::TupleEncoder,
        tuple_after: Self::TupleEncoder,
        r: Result<Self::AnySpecEncoder, Error>,
        next: Self,
    ) -> bool;

    fn tuple_encode_element(&mut self, tuple: &mut Self::TupleEncoder) -> (r: Result<
        Self::AnySpecEncoder,
        Error,
    >)
        ensures
            old(self).tuple_encode_element_spec(*old(tuple), *final(tuple), r, *final(self)),
    ;

    spec fn tuple_end_spec(&self, tuple: Self::TupleEncoder, r: Result<(), Error>, next: Self) -> bool;

    fn tuple_end(&mut self, tuple: Self::TupleEncoder) -> (r: Result<(), Error>)
        ensures
            old(self).tuple_end_spec(tuple, r, *final(self)),
    ;

    spec fn seq_encode_element_spec(
        &self,
        seq: Self::SeqEncoder,
        seq_after: Self::SeqEncoder,
        r: Result<Self::AnySpecEncoder, Error>,
        next: Self,
    ) -> bool;

    fn seq_encode_element(&mut self, seq: &mut Self::SeqEncoder) -> (r: Result<
        Self::AnySpecEncoder,
        Error,
    >)
        ensures
            old(self).seq_encode_element_spec(*old(seq), *final(seq), r, *final(self)),
    ;

    spec fn seq_end_spec(&self, seq: Self::SeqEncoder, r: Result<(), Error>, next: Self) -> bool;

    fn seq_end(&mut self, seq: Self::SeqEncoder) -> (r: Result<(), Error>)
        ensures
            old(self).seq_end_spec(seq, r, *final(self)),
    ;

    spec fn map_encode_element_spec(
        &self,
        map: Self::MapEncoder,
        map_after: Self::MapEncoder,
        r: Result<(Self::AnySpecEncoder, Self::ValueEncoder), Error>,
        next: Self,
    ) -> bool;

    fn map_encode_element(&mut self, map: &mut Self::MapEncoder) -> (r: Result<
        (Self::AnySpecEncoder, Self::ValueEncoder),
        Error,
    >)
        ensures
            old(self).map_encode_element_spec(*old(map), *final(map), r, *final(self)),
    ;

    spec fn map_end_spec(&self, map: Self::MapEncoder, r: Result<(), Error>, next: Self) -> bool;

    fn map_end(&mut self, map: Self::MapEncoder) -> (r: Result<(), Error>)
        ensures
            old(self).map_end_spec(map, r, *final(self)),
    ;

    spec fn entry_encode_value_spec(
        &self,
        value: Self::ValueEncoder,
        r: Result<(Self::AnySpecEncoder, Self::EntryCloser), Error>,
        next: Self,
    ) -> bool;

    fn entry_encode_value(&mut self, value: Self::ValueEncoder) -> (r: Result<
        (Self::AnySpecEncoder, Self::EntryCloser),
        Error,
    >)
        ensures
            old(self).entry_encode_value_spec(value, r, *final(self)),
    ;

    spec fn entry_end_spec(&self, closer: Self::EntryCloser, r: Result<(), Error>, next: Self) -> bool;

    fn entry_end(&mut self, closer: Self::EntryCloser) -> (r: Result<(), Error>)
        ensures
            old(self).entry_end_spec(closer, r, *final(self)),
    ;

    spec fn tuple_struct_encode_field_spec(
        &self,
        s: Self::TupleStructEncoder,
        s_after: Self::TupleStructEncoder,
        r: Result<Self::AnySpecEncoder, Error>,
        next: Self,
    ) -> bool;

    fn tuple_struct_encode_field(&mut self, s: &mut Self::TupleStructEncoder) -> (r: Result<
        Self::AnySpecEncoder,
        Error,
    >)
        ensures
            old(self).tuple_struct_encode_field_spec(*old(s), *final(s), r, *final(self)),
    ;

    spec fn tuple_struct_end_spec(&self, s: Self::TupleStructEncoder, r: Result<(), Error>, next: Self) -> bool;

    fn tuple_struct_end(&mut self, s: Self::TupleStructEncoder) -> (r: Result<(), Error>)
        ensures
            old(self).tuple_struct_end_spec(s, r, *final(self)),
    ;

    spec fn struct_encode_field_spec(
        &self,
        s: Self::StructEncoder,
        s_after: Self::StructEncoder,
        field: &'static str,
        r: Result<Self::AnySpecEncoder, Error>,
        next: Self,
    ) -> bool;

    fn struct_encode_field(&mut self, s: &mut Self::StructEncoder, field: &'static str) -> (r: Result<
        Self::AnySpecEncoder,
        Error,
    >)
        ensures
            old(self).struct_encode_field_spec(*old(s), *final(s), field, r, *final(self)),
    ;

    spec fn struct_end_spec(&self, s: Self::StructEncoder, r: Result<(), Error>, next: Self) -> bool;

    fn struct_end(&mut self, s: Self::StructEncoder) -> (r: Result<(), Error>)
        ensures
            old(self).struct_end_spec(s, r, *final(self)),
    ;

    spec fn tuple_variant_encode_field_spec(
        &self,
        v: Self::TupleVariantEncoder,
        v_after: Self::TupleVariantEncoder,
        r: Result<Self::AnySpecEncoder, Error>,
        next: Self,
    ) -> bool;

    fn tuple_variant_encode_field(&mut self, v: &mut Self::TupleVariantEncoder) -> (r: Result<
        Self::AnySpecEncoder,
        Error,
    >)
        ensures
            old(self).tuple_variant_encode_field_spec(*old(v), *final(v), r, *final(self)),
    ;

    spec fn tuple_variant_end_spec(&self, v: Self::TupleVariantEncoder, r: Result<(), Error>, next: Self) -> bool;

    fn tuple_variant_end(&mut self, v: Self::TupleVariantEncoder) -> (r: Result<(), Error>)
        ensures
            old(self).tuple_variant_end_spec(v, r, *final(self)),
    ;

    spec fn struct_variant_encode_field_spec(
        &self,
        v: Self::StructVariantEncoder,
        v_after: Self::StructVariantEncoder,
        field: &'static str,
        r: Result<Self::AnySpecEncoder, Error>,
        next: Self,
    ) -> bool;

    fn struct_variant_encode_field(
        &mut self,
        v: &mut Self::StructVariantEncoder,
        field: &'static str,
    ) -> (r: Result<Self::AnySpecEncoder, Error>)
        ensures
            old(self).struct_variant_encode_field_spec(*old(v), *final(v), field, r, *final(self)),
    ;

    spec fn struct_variant_end_spec(&self, v: Self::StructVariantEncoder, r: Result<(), Error>, next: Self) -> bool;

    fn struct_variant_end(&mut self, v: Self::StructVariantEncoder) -> (r: Result<(), Error>)
        ensures
            old(self).struct_variant_end_spec(v, r, *final(self)),
    ;

    /// Whether the format is meant to be read by people.
    spec fn human_readable_spec(&self) -> bool;

    fn is_human_readable(&self) -> (r: bool)
        ensures
            r == self.human_readable_spec(),
    ;
}

} // verus!
