//! The encoder of the fixed-layout format.
use vstd::prelude::*;
use vstd::utf8::encode_utf8;
use crate::bin_format::encode::{byte_string_bytes, text_bytes, usize_bytes};
use crate::decode::DecodeHint;
use crate::encode::SpecEncoder;
use crate::error::{Error, FixedError};
use crate::fixed::{
    DiscriminantWidth,
    FixedValue,
    discriminant_bytes,
    spec_fixed_decode,
    spec_fixed_read_len,
    spec_read_discriminant,
};
use crate::fixed::decode::FixedAnyDecoder;
use crate::payload::{payload_bytes, write_payload};
use crate::primitive::{Primitive, type_of};
use crate::text::lemma_utf8_round_trip;
use crate::vu128::{VU128_PADDING, spec_read_u64, write_u32, write_u64};

verus! {

/// The encoder: the bytes written so far.
pub struct SimpleFixedSpecEncoder {
    output: Vec<u8>,
}

impl SimpleFixedSpecEncoder {
    /// The bytes written so far.
    pub closed spec fn output(&self) -> Seq<u8> {
        self.output@
    }

    pub fn new() -> (r: Self)
        ensures
            r.output() == Seq::<u8>::empty(),
    {
        SimpleFixedSpecEncoder { output: Vec::new() }
    }

    /// Writes variant `index` of an enum with `max` variants.  For an index
    /// below `max`, reading a discriminant of such an enum at the old end
    /// gives the index back, whatever follows.
    pub fn encode_discriminant(&mut self, index: usize, max: usize)
        ensures
            final(self).output() == old(self).output() + discriminant_bytes(index, max),
            index < max ==> forall|rest: Seq<u8>|
                #[trigger] spec_read_discriminant(final(self).output() + rest, old(self).output().len() as int, max)
                    == Ok::<(usize, int), Error>((index, final(self).output().len() as int)),
    {
        match DiscriminantWidth::from_max(max) {
            DiscriminantWidth::U8 => {
                let v = (index as u8) as u32;
                write_u32(&mut self.output, v);
                assert(index < max ==> v as usize == index);
            },
            DiscriminantWidth::U16 => {
                let v = (index as u16) as u32;
                write_u32(&mut self.output, v);
                assert(index < max ==> v as usize == index);
            },
            DiscriminantWidth::U32 => {
                let v = index as u32;
                write_u32(&mut self.output, v);
                assert(index < max ==> v as usize == index);
            },
            DiscriminantWidth::U64 => {
                let v = index as u64;
                write_u64(&mut self.output, v);
                assert(v as usize == index);
            },
        }
    }

    /// The message: what was written, then the zero padding.
    pub fn end(self) -> (r: Result<Vec<u8>, Error>)
        ensures
            r matches Ok(v) && v@ == self.output() + Seq::new(VU128_PADDING as nat, |i: int| 0u8),
    {
        let mut output = self.output;
        let ghost before = output@;
        let mut i: usize = 0;
        while i < VU128_PADDING
            invariant
                i <= VU128_PADDING,
                output@ == before + Seq::new(i as nat, |j: int| 0u8),
            decreases VU128_PADDING - i,
        {
            output.push(0u8);
            i = i + 1;
            assert(output@ =~= before + Seq::new(i as nat, |j: int| 0u8));
        }
        Ok(output)
    }

    /// Writes a length.
    fn write_len(&mut self, n: usize)
        ensures
            final(self).output() == old(self).output() + usize_bytes(n),
            forall|rest: Seq<u8>|
                #[trigger] spec_read_u64(final(self).output() + rest, old(self).output().len() as int)
                    == Some((n as u64, final(self).output().len() as int)),
            forall|rest: Seq<u8>|
                #[trigger] spec_fixed_read_len(final(self).output() + rest, old(self).output().len() as int)
                    == Ok::<(usize, int), Error>((n, final(self).output().len() as int)),
    {
        write_u64(&mut self.output, n as u64);
        assert forall|rest: Seq<u8>|
            #[trigger] spec_fixed_read_len(self.output@ + rest, old(self).output@.len() as int)
                == Ok::<(usize, int), Error>((n, self.output@.len() as int)) by {
            assert(spec_read_u64(self.output@ + rest, old(self).output@.len() as int)
                == Some((n as u64, self.output@.len() as int)));
        }
    }

    /// Writes a length and the bytes.
    fn write_byte_string(&mut self, b: &[u8])
        ensures
            final(self).output() == old(self).output() + byte_string_bytes(b@),
            forall|rest: Seq<u8>|
                #[trigger] spec_fixed_decode(
                    final(self).output() + rest,
                    old(self).output().len() as int,
                    FixedAnyDecoder::Any,
                    DecodeHint::Bytes,
                ) == Ok::<(FixedValue, int), Error>((FixedValue::ByteString(b@), final(self).output().len() as int)),
    {
        let ghost start = self.output@.len() as int;
        self.write_len(b.len());
        let ghost mid = self.output@;
        self.output.extend_from_slice(b);
        assert(self.output@ =~= old(self).output@ + byte_string_bytes(b@));
        assert forall|rest: Seq<u8>|
            #[trigger] spec_fixed_decode(self.output@ + rest, start, FixedAnyDecoder::Any, DecodeHint::Bytes)
                == Ok::<(FixedValue, int), Error>((FixedValue::ByteString(b@), self.output@.len() as int)) by {
            let rest2 = b@ + rest;
            assert(self.output@ + rest =~= mid + rest2);
            assert(spec_fixed_read_len(mid + rest2, start) == Ok::<(usize, int), Error>((b@.len() as usize, mid.len() as int)));
            assert((self.output@ + rest).subrange(mid.len() as int, (mid.len() + b@.len()) as int) =~= b@);
        }
    }
}

impl SpecEncoder for SimpleFixedSpecEncoder {
    type AnySpecEncoder = ();
    type SomeCloser = ();
    type TupleEncoder = ();
    type SeqEncoder = ();
    type MapEncoder = ();
    type ValueEncoder = ();
    type EntryCloser = ();
    type TupleStructEncoder = ();
    type StructEncoder = ();
    type TupleVariantEncoder = ();
    type StructVariantEncoder = ();

    open spec fn encode_prim_spec(&self, any: (), prim: Primitive, r: Result<(), Error>, next: Self) -> bool {
        r is Ok && next.output() == self.output() + payload_bytes(prim)
    }

    open spec fn encode_str_spec(&self, any: (), s: Seq<char>, r: Result<(), Error>, next: Self) -> bool {
        r is Ok && next.output() == self.output() + text_bytes(s)
    }

    open spec fn encode_bytes_spec(&self, any: (), s: Seq<u8>, r: Result<(), Error>, next: Self) -> bool {
        r is Ok && next.output() == self.output() + byte_string_bytes(s)
    }

    open spec fn encode_none_spec(&self, any: (), r: Result<(), Error>, next: Self) -> bool {
        r is Ok && next.output() == self.output() + payload_bytes(Primitive::Bool(false))
    }

    open spec fn encode_some_spec(&self, any: (), r: Result<((), ()), Error>, next: Self) -> bool {
        r is Ok && next.output() == self.output() + payload_bytes(Primitive::Bool(true))
    }

    open spec fn encode_unit_struct_spec(&self, any: (), name: &'static str, r: Result<(), Error>, next: Self) -> bool {
        r is Ok && next == *self
    }

    open spec fn encode_tuple_struct_spec(
        &self,
        any: (),
        name: &'static str,
        len: usize,
        r: Result<(), Error>,
        next: Self,
    ) -> bool {
        r is Ok && next == *self
    }

    open spec fn encode_struct_spec(
        &self,
        any: (),
        name: &'static str,
        fields: &'static [&'static str],
        r: Result<(), Error>,
        next: Self,
    ) -> bool {
        r is Ok && next == *self
    }

    open spec fn encode_unit_variant_spec(
        &self,
        any: (),
        name: &'static str,
        variants: &'static [&'static str],
        variant_index: usize,
        r: Result<(), Error>,
        next: Self,
    ) -> bool {
        r is Ok && next == *self
    }

    open spec fn encode_tuple_variant_spec(
        &self,
        any: (),
        name: &'static str,
        variants: &'static [&'static str],
        variant_index: usize,
        len: usize,
        r: Result<(), Error>,
        next: Self,
    ) -> bool {
        r is Ok && next.output() == self.output() + discriminant_bytes(variant_index, variants@.len() as usize)
    }

    open spec fn encode_struct_variant_spec(
        &self,
        any: (),
        name: &'static str,
        variants: &'static [&'static str],
        variant_index: usize,
        fields: &'static [&'static str],
        r: Result<(), Error>,
        next: Self,
    ) -> bool {
        r is Ok && next.output() == self.output() + discriminant_bytes(variant_index, variants@.len() as usize)
    }

    open spec fn encode_seq_spec(&self, any: (), len: Option<usize>, r: Result<(), Error>, next: Self) -> bool {
        match len {
            Some(n) => r is Ok && next.output() == self.output() + usize_bytes(n),
            None => r == Err::<(), Error>(Error::Fixed(FixedError::MissingSeqLength)) && next.output() == self.output(),
        }
    }

    open spec fn encode_tuple_spec(&self, any: (), len: usize, r: Result<(), Error>, next: Self) -> bool {
        r is Ok && next == *self
    }

    open spec fn encode_map_spec(&self, any: (), len: Option<usize>, r: Result<(), Error>, next: Self) -> bool {
        match len {
            Some(n) => r is Ok && next.output() == self.output() + usize_bytes(n),
            None => r == Err::<(), Error>(Error::Fixed(FixedError::MissingMapLength)) && next.output() == self.output(),
        }
    }

    open spec fn some_end_spec(&self, some: (), r: Result<(), Error>, next: Self) -> bool {
        r is Ok && next == *self
    }

    open spec fn tuple_encode_element_spec(&self, tuple: (), tuple_after: (), r: Result<(), Error>, next: Self) -> bool {
        r is Ok && next == *self
    }

    open spec fn tuple_end_spec(&self, tuple: (), r: Result<(), Error>, next: Self) -> bool {
        r is Ok && next == *self
    }

    open spec fn seq_encode_element_spec(&self, seq: (), seq_after: (), r: Result<(), Error>, next: Self) -> bool {
        r is Ok && next == *self
    }

    open spec fn seq_end_spec(&self, seq: (), r: Result<(), Error>, next: Self) -> bool {
        r is Ok && next == *self
    }

    open spec fn map_encode_element_spec(&self, map: (), map_after: (), r: Result<((), ()), Error>, next: Self) -> bool {
        r is Ok && next == *self
    }

    open spec fn map_end_spec(&self, map: (), r: Result<(), Error>, next: Self) -> bool {
        r is Ok && next == *self
    }

    open spec fn entry_encode_value_spec(&self, value: (), r: Result<((), ()), Error>, next: Self) -> bool {
        r is Ok && next == *self
    }

    open spec fn entry_end_spec(&self, closer: (), r: Result<(), Error>, next: Self) -> bool {
        r is Ok && next == *self
    }

    open spec fn tuple_struct_encode_field_spec(&self, s: (), s_after: (), r: Result<(), Error>, next: Self) -> bool {
        r is Ok && next == *self
    }

    open spec fn tuple_struct_end_spec(&self, s: (), r: Result<(), Error>, next: Self) -> bool {
        r is Ok && next == *self
    }

    open spec fn struct_encode_field_spec(
        &self,
        s: (),
        s_after: (),
        field: &'static str,
        r: Result<(), Error>,
        next: Self,
    ) -> bool {
        r is Ok && next == *self
    }

    open spec fn struct_end_spec(&self, s: (), r: Result<(), Error>, next: Self) -> bool {
        r is Ok && next == *self
    }

    open spec fn tuple_variant_encode_field_spec(&self, v: (), v_after: (), r: Result<(), Error>, next: Self) -> bool {
        r is Ok && next == *self
    }

    open spec fn tuple_variant_end_spec(&self, v: (), r: Result<(), Error>, next: Self) -> bool {
        r is Ok && next == *self
    }

    open spec fn struct_variant_encode_field_spec(
        &self,
        v: (),
        v_after: (),
        field: &'static str,
        r: Result<(), Error>,
        next: Self,
    ) -> bool {
        r is Ok && next == *self
    }

    open spec fn struct_variant_end_spec(&self, v: (), r: Result<(), Error>, next: Self) -> bool {
        r is Ok && next == *self
    }

    open spec fn human_readable_spec(&self) -> bool {
        false
    }

    fn encode_prim(&mut self, any: (), prim: Primitive) -> (r: Result<(), Error>)
        ensures
            r is Ok,
            final(self).output() == old(self).output() + payload_bytes(prim),
            forall|rest: Seq<u8>|
                #[trigger] spec_fixed_decode(
                    final(self).output() + rest,
                    old(self).output().len() as int,
                    FixedAnyDecoder::Any,
                    DecodeHint::Primitive(type_of(prim)),
                ) == Ok::<(FixedValue, int), Error>((FixedValue::Primitive(prim), final(self).output().len() as int)),
    {
        write_payload(&mut self.output, prim);
        Ok(())
    }

    fn encode_str(&mut self, any: (), s: &str) -> (r: Result<(), Error>)
        ensures
            r is Ok,
            final(self).output() == old(self).output() + text_bytes(s@),
            forall|rest: Seq<u8>|
                #[trigger] spec_fixed_decode(
                    final(self).output() + rest,
                    old(self).output().len() as int,
                    FixedAnyDecoder::Any,
                    DecodeHint::String,
                ) == Ok::<(FixedValue, int), Error>((FixedValue::Text(s@), final(self).output().len() as int)),
    {
        let ghost start = self.output@.len() as int;
        let b = s.as_bytes();
        self.write_byte_string(b);
        assert forall|rest: Seq<u8>|
            #[trigger] spec_fixed_decode(self.output@ + rest, start, FixedAnyDecoder::Any, DecodeHint::String)
                == Ok::<(FixedValue, int), Error>((FixedValue::Text(s@), self.output@.len() as int)) by {
            assert(spec_fixed_decode(self.output@ + rest, start, FixedAnyDecoder::Any, DecodeHint::Bytes)
                == Ok::<(FixedValue, int), Error>((FixedValue::ByteString(b@), self.output@.len() as int)));
            lemma_utf8_round_trip(s@);
        }
        Ok(())
    }

    fn encode_bytes(&mut self, any: (), s: &[u8]) -> (r: Result<(), Error>)
        ensures
            r is Ok,
            final(self).output() == old(self).output() + byte_string_bytes(s@),
            forall|rest: Seq<u8>|
                #[trigger] spec_fixed_decode(
                    final(self).output() + rest,
                    old(self).output().len() as int,
                    FixedAnyDecoder::Any,
                    DecodeHint::Bytes,
                ) == Ok::<(FixedValue, int), Error>((FixedValue::ByteString(s@), final(self).output().len() as int)),
    {
        self.write_byte_string(s);
        Ok(())
    }

    fn encode_none(&mut self, any: ()) -> (r: Result<(), Error>)
        ensures
            r is Ok,
            final(self).output() == old(self).output() + payload_bytes(Primitive::Bool(false)),
            forall|rest: Seq<u8>|
                #[trigger] spec_fixed_decode(
                    final(self).output() + rest,
                    old(self).output().len() as int,
                    FixedAnyDecoder::Any,
                    DecodeHint::Option,
                ) == Ok::<(FixedValue, int), Error>((FixedValue::Absent, final(self).output().len() as int)),
    {
        write_payload(&mut self.output, Primitive::Bool(false));
        Ok(())
    }

    fn encode_some(&mut self, any: ()) -> (r: Result<((), ()), Error>)
        ensures
            r is Ok,
            final(self).output() == old(self).output() + payload_bytes(Primitive::Bool(true)),
            forall|rest: Seq<u8>|
                #[trigger] spec_fixed_decode(
                    final(self).output() + rest,
                    old(self).output().len() as int,
                    FixedAnyDecoder::Any,
                    DecodeHint::Option,
                ) == Ok::<(FixedValue, int), Error>((FixedValue::Present, final(self).output().len() as int)),
    {
        write_payload(&mut self.output, Primitive::Bool(true));
        Ok(((), ()))
    }

    /// Writes nothing: the reader knows the shape from its type.
    fn encode_unit_struct(&mut self, any: (), name: &'static str) -> (r: Result<(), Error>)
        ensures
            r is Ok,
            final(self).output() == old(self).output(),
    {
        Ok(())
    }

    /// Writes nothing: the reader knows the length from its type.
    fn encode_tuple_struct(&mut self, any: (), name: &'static str, len: usize) -> (r: Result<(), Error>)
        ensures
            r is Ok,
            final(self).output() == old(self).output(),
    {
        Ok(())
    }

    /// Writes nothing: the fields follow in the order of the type.
    fn encode_struct(&mut self, any: (), name: &'static str, fields: &'static [&'static str]) -> (r: Result<
        (),
        Error,
    >)
        ensures
            r is Ok,
            final(self).output() == old(self).output(),
    {
        Ok(())
    }

    /// Writes nothing: this encoder does not write the index of a unit
    /// variant.
    fn encode_unit_variant(
        &mut self,
        any: (),
        name: &'static str,
        variants: &'static [&'static str],
        variant_index: usize,
    ) -> (r: Result<(), Error>)
        ensures
            r is Ok,
            final(self).output() == old(self).output(),
    {
        Ok(())
    }

    fn encode_tuple_variant(
        &mut self,
        any: (),
        name: &'static str,
        variants: &'static [&'static str],
        variant_index: usize,
        len: usize,
    ) -> (r: Result<(), Error>)
        ensures
            r is Ok,
            final(self).output() == old(self).output() + discriminant_bytes(variant_index, variants@.len() as usize),
            variant_index < variants@.len() ==> forall|rest: Seq<u8>, n: &'static str|
                #[trigger] spec_fixed_decode(
                    final(self).output() + rest,
                    old(self).output().len() as int,
                    FixedAnyDecoder::Any,
                    DecodeHint::Enum { name: n, variants },
                ) == Ok::<(FixedValue, int), Error>((FixedValue::Variant(variant_index), final(self).output().len() as int)),
    {
        self.encode_discriminant(variant_index, variants.len());
        Ok(())
    }

    fn encode_struct_variant(
        &mut self,
        any: (),
        name: &'static str,
        variants: &'static [&'static str],
        variant_index: usize,
        fields: &'static [&'static str],
    ) -> (r: Result<(), Error>)
        ensures
            r is Ok,
            final(self).output() == old(self).output() + discriminant_bytes(variant_index, variants@.len() as usize),
            variant_index < variants@.len() ==> forall|rest: Seq<u8>, n: &'static str|
                #[trigger] spec_fixed_decode(
                    final(self).output() + rest,
                    old(self).output().len() as int,
                    FixedAnyDecoder::Any,
                    DecodeHint::Enum { name: n, variants },
                ) == Ok::<(FixedValue, int), Error>((FixedValue::Variant(variant_index), final(self).output().len() as int)),
    {
        self.encode_discriminant(variant_index, variants.len());
        Ok(())
    }

    fn encode_seq(&mut self, any: (), len: Option<usize>) -> (r: Result<(), Error>)
        ensures
            match len {
                Some(n) => r is Ok && final(self).output() == old(self).output() + usize_bytes(n)
                    && forall|rest: Seq<u8>|
                    #[trigger] spec_fixed_decode(
                        final(self).output() + rest,
                        old(self).output().len() as int,
                        FixedAnyDecoder::Any,
                        DecodeHint::Sequence,
                    ) == Ok::<(FixedValue, int), Error>((FixedValue::Items(n), final(self).output().len() as int)),
                None => r == Err::<(), Error>(Error::Fixed(FixedError::MissingSeqLength))
                    && final(self).output() == old(self).output(),
            },
    {
        match len {
            Some(n) => {
                self.write_len(n);
                Ok(())
            },
            None => Err(Error::Fixed(FixedError::MissingSeqLength)),
        }
    }

    /// Writes nothing: the reader knows the length from its type.
    fn encode_tuple(&mut self, any: (), len: usize) -> (r: Result<(), Error>)
        ensures
            r is Ok,
            final(self).output() == old(self).output(),
    {
        Ok(())
    }

    fn encode_map(&mut self, any: (), len: Option<usize>) -> (r: Result<(), Error>)
        ensures
            match len {
                Some(n) => r is Ok && final(self).output() == old(self).output() + usize_bytes(n)
                    && forall|rest: Seq<u8>|
                    #[trigger] spec_fixed_decode(
                        final(self).output() + rest,
                        old(self).output().len() as int,
                        FixedAnyDecoder::Any,
                        DecodeHint::Mapping,
                    ) == Ok::<(FixedValue, int), Error>((FixedValue::Entries(n), final(self).output().len() as int)),
                None => r == Err::<(), Error>(Error::Fixed(FixedError::MissingMapLength))
                    && final(self).output() == old(self).output(),
            },
    {
        match len {
            Some(n) => {
                self.write_len(n);
                Ok(())
            },
            None => Err(Error::Fixed(FixedError::MissingMapLength)),
        }
    }

    fn some_end(&mut self, some: ()) -> (r: Result<(), Error>)
        ensures r is Ok, *final(self) == *old(self),
    {
        Ok(())
    }

    fn tuple_encode_element(&mut self, tuple: &mut ()) -> (r: Result<(), Error>)
        ensures r is Ok, *final(self) == *old(self),
    {
        Ok(())
    }

    fn tuple_end(&mut self, tuple: ()) -> (r: Result<(), Error>)
        ensures r is Ok, *final(self) == *old(self),
    {
        Ok(())
    }

    fn seq_encode_element(&mut self, seq: &mut ()) -> (r: Result<(), Error>)
        ensures r is Ok, *final(self) == *old(self),
    {
        Ok(())
    }

    fn seq_end(&mut self, seq: ()) -> (r: Result<(), Error>)
        ensures r is Ok, *final(self) == *old(self),
    {
        Ok(())
    }

    fn map_encode_element(&mut self, map: &mut ()) -> (r: Result<((), ()), Error>)
        ensures r is Ok, *final(self) == *old(self),
    {
        Ok(((), ()))
    }

    fn map_end(&mut self, map: ()) -> (r: Result<(), Error>)
        ensures r is Ok, *final(self) == *old(self),
    {
        Ok(())
    }

    fn entry_encode_value(&mut self, value: ()) -> (r: Result<((), ()), Error>)
        ensures r is Ok, *final(self) == *old(self),
    {
        Ok(((), ()))
    }

    fn entry_end(&mut self, closer: ()) -> (r: Result<(), Error>)
        ensures r is Ok, *final(self) == *old(self),
    {
        Ok(())
    }

    fn tuple_struct_encode_field(&mut self, s: &mut ()) -> (r: Result<(), Error>)
        ensures r is Ok, *final(self) == *old(self),
    {
        Ok(())
    }

    fn tuple_struct_end(&mut self, s: ()) -> (r: Result<(), Error>)
        ensures r is Ok, *final(self) == *old(self),
    {
        Ok(())
    }

    fn struct_encode_field(&mut self, s: &mut (), field: &'static str) -> (r: Result<(), Error>)
        ensures r is Ok, *final(self) == *old(self),
    {
        Ok(())
    }

    fn struct_end(&mut self, s: ()) -> (r: Result<(), Error>)
        ensures r is Ok, *final(self) == *old(self),
    {
        Ok(())
    }

    fn tuple_variant_encode_field(&mut self, v: &mut ()) -> (r: Result<(), Error>)
        ensures r is Ok, *final(self) == *old(self),
    {
        Ok(())
    }

    fn tuple_variant_end(&mut self, v: ()) -> (r: Result<(), Error>)
        ensures r is Ok, *final(self) == *old(self),
    {
        Ok(())
    }

    fn struct_variant_encode_field(&mut self, v: &mut (), field: &'static str) -> (r: Result<(), Error>)
        ensures r is Ok, *final(self) == *old(self),
    {
        Ok(())
    }

    fn struct_variant_end(&mut self, v: ()) -> (r: Result<(), Error>)
        ensures r is Ok, *final(self) == *old(self),
    {
        Ok(())
    }

    fn is_human_readable(&self) -> (r: bool)
        ensures !r,
    {
        false
    }
}

} // verus!
