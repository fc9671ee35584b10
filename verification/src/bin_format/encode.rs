//! The encoder of the self-describing binary format.
use vstd::prelude::*;
use vstd::utf8::encode_utf8;
use crate::bin_format::{TypeTag, lemma_tag_round_trip, prim_tag, tag_byte};
use crate::decode::DecodeHint;
use crate::encode::SpecEncoder;
use crate::error::{BinEncoderError, Error, ReadError};
use crate::payload::{payload_bytes, spec_read_payload, write_payload};
use crate::primitive::{Primitive, PrimitiveType, type_of};
use crate::text::{first_index_of, lemma_first_index_of, lemma_first_index_unique, lemma_utf8_round_trip, names_eq, names_view};
use crate::vu128::{ToFromVu128, VU128_PADDING, spec_read_u64, vu128_encoded_u64, write_u64};
use crate::bin_format::decode::{BinValue, lemma_decode_enum_header, hint_fields, hint_variants, key_names, spec_bin_decode, spec_read_bytes, spec_read_enum_def, spec_read_names, spec_read_text, spec_read_usize};

verus! {

/// The bytes of a length or an index.
pub open spec fn usize_bytes(n: usize) -> Seq<u8> {
    vu128_encoded_u64(n as u64)
}

/// The bytes of a byte string: its length, then the bytes.
pub open spec fn byte_string_bytes(b: Seq<u8>) -> Seq<u8> {
    usize_bytes(b.len() as usize) + b
}

/// The bytes of a text: its UTF-8 encoding as a byte string.
pub open spec fn text_bytes(s: Seq<char>) -> Seq<u8> {
    byte_string_bytes(encode_utf8(s))
}

/// The bytes of a list of names, one text after the other.
pub open spec fn names_bytes(names: Seq<Seq<char>>) -> Seq<u8>
    decreases names.len(),
{
    if names.len() == 0 {
        Seq::empty()
    } else {
        names_bytes(names.drop_last()) + text_bytes(names.last())
    }
}

/// The bytes of an enum definition: its tag, the number of names, the names.
pub open spec fn enum_def_bytes(def: Seq<Seq<char>>) -> Seq<u8> {
    seq![tag_byte(TypeTag::EnumDef)] + usize_bytes(def.len() as usize) + names_bytes(def)
}

/// The bytes of a primitive value: its tag, then its payload.
pub open spec fn bin_prim_bytes(p: Primitive) -> Seq<u8> {
    seq![tag_byte(prim_tag(type_of(p)))] + payload_bytes(p)
}

/// Looking up a definition in the definitions written so far: its index, the
/// bytes to write (the definition itself, the first time), and the
/// definitions afterwards.
pub open spec fn enum_def_step(defs: Seq<Seq<Seq<char>>>, def: Seq<Seq<char>>) -> (
    usize,
    Seq<u8>,
    Seq<Seq<Seq<char>>>,
) {
    match first_index_of(defs, def) {
        Some(i) => (i as usize, Seq::empty(), defs),
        None => (defs.len() as usize, enum_def_bytes(def), defs.push(def)),
    }
}

/// The enum definitions that an encoder has written, kept across messages so
/// that later messages refer to them by index.
pub struct BinEncoderSchema {
    enum_defs: Vec<&'static [&'static str]>,
}

impl BinEncoderSchema {
    /// The definitions in the order they were written.
    pub closed spec fn defs(&self) -> Seq<Seq<Seq<char>>> {
        self.enum_defs@.map_values(|d: &'static [&'static str]| names_view(d@))
    }

    pub fn new() -> (r: Self)
        ensures
            r.defs() == Seq::<Seq<Seq<char>>>::empty(),
    {
        let r = BinEncoderSchema { enum_defs: Vec::new() };
        assert(r.defs() =~= Seq::<Seq<Seq<char>>>::empty());
        r
    }
}

/// The encoder: the bytes written so far and the schema it shares.
pub struct SimpleBinSpecEncoder<'s> {
    output: Vec<u8>,
    schema: &'s mut BinEncoderSchema,
}

impl<'s> SimpleBinSpecEncoder<'s> {
    /// The bytes written so far.
    pub closed spec fn output(&self) -> Seq<u8> {
        self.output@
    }

    /// The definitions of the shared schema.
    pub closed spec fn defs(&self) -> Seq<Seq<Seq<char>>> {
        self.schema.defs()
    }

    pub fn new(schema: &'s mut BinEncoderSchema) -> (r: SimpleBinSpecEncoder<'s>)
        ensures
            r.output() == Seq::<u8>::empty(),
            r.defs() == old(schema).defs(),
    {
        SimpleBinSpecEncoder { output: Vec::new(), schema }
    }

    /// The message: what was written, then the zero padding.
    pub fn end(self) -> (r: Result<Vec<u8>, Error>)
        ensures
            r matches Ok(v) && v@ == self.output() + Seq::new(VU128_PADDING as nat, |i: int| 0u8),
    {
        let mut output = self.output;
        let ghost before = output@;
        let mut i: usize = 0;
        while i < VU128_PADDING
            invariant
                i <= VU128_PADDING,
                output@ == before + Seq::new(i as nat, |j: int| 0u8),
            decreases VU128_PADDING - i,
        {
            output.push(0u8);
            i = i + 1;
            assert(output@ =~= before + Seq::new(i as nat, |j: int| 0u8));
        }
        Ok(output)
    }

    pub fn write_raw(&mut self, value: &[u8]) -> (r: Result<(), Error>)
        ensures
            r is Ok,
            final(self).output() == old(self).output() + value@,
            final(self).defs() == old(self).defs(),
    {
        self.output.extend_from_slice(value);
        Ok(())
    }

    pub fn write_tag(&mut self, tag: TypeTag) -> (r: Result<(), Error>)
        ensures
            r is Ok,
            final(self).output() == old(self).output().push(tag_byte(tag)),
            final(self).defs() == old(self).defs(),
    {
        self.output.push(tag.to_u8());
        Ok(())
    }

    pub fn write_usize(&mut self, value: usize) -> (r: Result<(), Error>)
        ensures
            r is Ok,
            final(self).output() == old(self).output() + usize_bytes(value),
            final(self).defs() == old(self).defs(),
            forall|rest: Seq<u8>|
                #[trigger] spec_read_usize(final(self).output() + rest, old(self).output().len() as int)
                    == Ok::<(usize, int), Error>((value, final(self).output().len() as int)),
    {
        write_u64(&mut self.output, value as u64);
        assert forall|rest: Seq<u8>|
            #[trigger] spec_read_usize(self.output@ + rest, old(self).output@.len() as int)
                == Ok::<(usize, int), Error>((value, self.output@.len() as int)) by {
            assert(spec_read_u64(self.output@ + rest, old(self).output@.len() as int)
                == Some((value as u64, self.output@.len() as int)));
        }
        Ok(())
    }

    /// Writes a value in its `vu128` encoding.
    pub fn write_vu128<T: ToFromVu128>(&mut self, value: T) -> (r: Result<(), Error>)
        ensures
            r is Ok,
            final(self).output() == old(self).output() + T::vu128_bytes(value),
            final(self).defs() == old(self).defs(),
    {
        T::encode_vu128(&mut self.output, value);
        Ok(())
    }

    pub fn write_byte_slice(&mut self, value: &[u8]) -> (r: Result<(), Error>)
        ensures
            r is Ok,
            final(self).output() == old(self).output() + byte_string_bytes(value@),
            final(self).defs() == old(self).defs(),
            forall|rest: Seq<u8>|
                #[trigger] spec_read_bytes(final(self).output() + rest, old(self).output().len() as int)
                    == Ok::<(Seq<u8>, int), Error>((value@, final(self).output().len() as int)),
    {
        let ghost start = self.output@.len() as int;
        self.write_usize(value.len())?;
        let ghost mid = self.output@;
        self.write_raw(value)?;
        assert(self.output@ =~= old(self).output@ + byte_string_bytes(value@));
        assert forall|rest: Seq<u8>|
            #[trigger] spec_read_bytes(self.output@ + rest, start)
                == Ok::<(Seq<u8>, int), Error>((value@, self.output@.len() as int)) by {
            let rest2 = value@ + rest;
            assert(self.output@ + rest =~= mid + rest2);
            assert(spec_read_usize(mid + rest2, start) == Ok::<(usize, int), Error>((value@.len() as usize, mid.len() as int)));
            assert((self.output@ + rest).subrange(mid.len() as int, (mid.len() + value@.len()) as int) =~= value@);
        }
        Ok(())
    }

    pub fn write_str_slice(&mut self, value: &str) -> (r: Result<(), Error>)
        ensures
            r is Ok,
            final(self).output() == old(self).output() + text_bytes(value@),
            final(self).defs() == old(self).defs(),
            forall|rest: Seq<u8>|
                #[trigger] spec_read_text(final(self).output() + rest, old(self).output().len() as int)
                    == Ok::<(Seq<char>, int), Error>((value@, final(self).output().len() as int)),
    {
        let b = value.as_bytes();
        self.write_byte_slice(b)?;
        assert forall|rest: Seq<u8>|
            #[trigger] spec_read_text(self.output@ + rest, old(self).output@.len() as int)
                == Ok::<(Seq<char>, int), Error>((value@, self.output@.len() as int)) by {
            assert(spec_read_bytes(self.output@ + rest, old(self).output@.len() as int)
                == Ok::<(Seq<u8>, int), Error>((b@, self.output@.len() as int)));
            lemma_utf8_round_trip(value@);
        }
        Ok(())
    }

    /// The index of a definition of these names, written first if this schema
    /// has not written it yet.
    pub fn get_or_write_enum_def(&mut self, variants: &'static [&'static str]) -> (r: Result<usize, Error>)
        ensures
            ({
                let (index, bytes, defs) = enum_def_step(old(self).defs(), names_view(variants@));
                &&& r == Ok::<usize, Error>(index)
                &&& final(self).output() == old(self).output() + bytes
                &&& final(self).defs() == defs
            }),
            old(self).defs().len() <= usize::MAX,
            r matches Ok(i) && i < final(self).defs().len() && final(self).defs()[i as int] == names_view(variants@),
            forall|rest: Seq<u8>, hint: DecodeHint|
                #[trigger] spec_bin_decode(final(self).output() + rest, old(self).output().len() as int, old(self).defs(), hint)
                    == spec_bin_decode(final(self).output() + rest, final(self).output().len() as int, final(self).defs(), hint),
            first_index_of(old(self).defs(), names_view(variants@)) is None ==> forall|rest: Seq<u8>|
                #[trigger] spec_read_enum_def(final(self).output() + rest, old(self).output().len() + 1int)
                    == Ok::<(Seq<Seq<char>>, int), Error>((names_view(variants@), final(self).output().len() as int)),
    {
        let ghost d = names_view(variants@);
        let ghost defs = self.defs();
        let n = self.schema.enum_defs.len();
        let mut i: usize = 0;
        while i < n
            invariant
                n == self.schema.enum_defs@.len(),
                defs == self.defs(),
                d == names_view(variants@),
                i <= n,
                forall|j: int| 0 <= j < i ==> defs[j] != d,
            decreases n - i,
        {
            if names_eq(self.schema.enum_defs[i], variants) {
                proof {
                    lemma_first_index_unique(defs, d, i as int);
                }
                assert(self.output@ =~= old(self).output@ + Seq::<u8>::empty());
                assert(self.output@.len() == old(self).output@.len());
                return Ok(i);
            }
            i = i + 1;
        }
        proof {
            lemma_first_index_of(defs, d);
        }
        let ghost start = self.output@.len() as int;
        self.write_tag(TypeTag::EnumDef)?;
        self.write_usize(variants.len())?;
        let ghost header = self.output@;
        let ghost p0 = header.len() as int;
        assert forall|rest: Seq<u8>|
            #[trigger] spec_read_names(self.output@ + rest, p0, 0nat)
                == Ok::<(Seq<Seq<char>>, int), Error>((d.take(0), self.output@.len() as int)) by {
            assert(d.take(0) =~= Seq::<Seq<char>>::empty());
        }
        let mut k: usize = 0;
        while k < variants.len()
            invariant
                k <= variants@.len(),
                d == names_view(variants@),
                self.defs() == defs,
                self.output@ == header + names_bytes(d.take(k as int)),
                p0 == header.len(),
                forall|rest: Seq<u8>|
                    #[trigger] spec_read_names(self.output@ + rest, p0, k as nat)
                        == Ok::<(Seq<Seq<char>>, int), Error>((d.take(k as int), self.output@.len() as int)),
            decreases variants@.len() - k,
        {
            let ghost prev = self.output@;
            self.write_str_slice(variants[k])?;
            proof {
                assert(d.take(k + 1).drop_last() =~= d.take(k as int));
                assert forall|rest: Seq<u8>|
                    #[trigger] spec_read_names(self.output@ + rest, p0, (k + 1) as nat)
                        == Ok::<(Seq<Seq<char>>, int), Error>((d.take(k + 1), self.output@.len() as int)) by {
                    let rest2 = text_bytes(variants@[k as int]@) + rest;
                    assert(self.output@ + rest =~= prev + rest2);
                    assert(spec_read_names(prev + rest2, p0, k as nat)
                        == Ok::<(Seq<Seq<char>>, int), Error>((d.take(k as int), prev.len() as int)));
                    assert(spec_read_text(self.output@ + rest, prev.len() as int)
                        == Ok::<(Seq<char>, int), Error>((variants@[k as int]@, self.output@.len() as int)));
                    assert(d.take(k as int).push(d[k as int]) =~= d.take(k + 1));
                }
            }
            k = k + 1;
        }
        proof {
            assert(d.take(variants@.len() as int) =~= d);
            assert forall|rest: Seq<u8>|
                #[trigger] spec_read_enum_def(self.output@ + rest, start + 1)
                    == Ok::<(Seq<Seq<char>>, int), Error>((d, self.output@.len() as int)) by {
                let rest2 = (self.output@ + rest).subrange(p0, (self.output@ + rest).len() as int);
                assert(self.output@ + rest =~= header + rest2);
                assert(spec_read_usize(header + rest2, start + 1)
                    == Ok::<(usize, int), Error>((variants@.len() as usize, p0)));
                assert(spec_read_names(self.output@ + rest, p0, variants@.len() as nat)
                    == Ok::<(Seq<Seq<char>>, int), Error>((d.take(variants@.len() as int), self.output@.len() as int)));
            }
        }
        assert(d.take(variants@.len() as int) =~= d);
        self.schema.enum_defs.push(variants);
        assert(self.defs() =~= defs.push(d));
        assert(self.output@ =~= old(self).output@ + enum_def_bytes(d));
        proof {
            lemma_tag_round_trip(TypeTag::EnumDef);
            assert forall|rest: Seq<u8>, hint: DecodeHint|
                #[trigger] spec_bin_decode(self.output@ + rest, start, defs, hint)
                    == spec_bin_decode(self.output@ + rest, self.output@.len() as int, defs.push(d), hint) by {
                assert(enum_def_bytes(d)[0] == tag_byte(TypeTag::EnumDef));
                assert((self.output@ + rest)[start] == tag_byte(TypeTag::EnumDef));
                assert(spec_read_enum_def(self.output@ + rest, start + 1)
                    == Ok::<(Seq<Seq<char>>, int), Error>((d, self.output@.len() as int)));
            }
        }
        Ok(n)
    }
}


/// The bytes that open a struct whose field names have definition `def`.
pub open spec fn struct_header_bytes(def: usize) -> Seq<u8> {
    seq![tag_byte(TypeTag::Struct)] + usize_bytes(def)
}

/// The bytes that open an enum value: the tag, the definition of the
/// variant names and the variant's index.
pub open spec fn enum_header_bytes(def: usize, variant_index: usize) -> Seq<u8> {
    seq![tag_byte(TypeTag::Enum)] + usize_bytes(def) + usize_bytes(variant_index)
}

/// The bytes that open a run of `len` values under `tag`.
pub open spec fn counted_bytes(tag: TypeTag, len: usize) -> Seq<u8> {
    seq![tag_byte(tag)] + usize_bytes(len)
}

impl<'s> SimpleBinSpecEncoder<'s> {
    /// Writes the header of an enum value: the tag, the definition of the
    /// variant names and the variant's index.
    fn write_enum_header(&mut self, def: usize, variant_index: usize)
        ensures
            final(self).output() == old(self).output() + enum_header_bytes(def, variant_index),
            final(self).defs() == old(self).defs(),
            final(self).output()[old(self).output().len() as int] == tag_byte(TypeTag::Enum),
            forall|rest: Seq<u8>|
                #[trigger] spec_read_usize(final(self).output() + rest, old(self).output().len() + 1int)
                    == Ok::<(usize, int), Error>((def, old(self).output().len() + 1int + usize_bytes(def).len())),
            forall|rest: Seq<u8>|
                #[trigger] spec_read_usize(final(self).output() + rest, old(self).output().len() + 1int + usize_bytes(def).len())
                    == Ok::<(usize, int), Error>((variant_index, final(self).output().len() as int)),
    {
        let ghost start = self.output@.len() as int;
        let _ = self.write_tag(TypeTag::Enum);
        let _ = self.write_usize(def);
        let ghost m = self.output@;
        let _ = self.write_usize(variant_index);
        assert(self.output@ =~= old(self).output@ + enum_header_bytes(def, variant_index));
        assert forall|rest: Seq<u8>|
            #[trigger] spec_read_usize(self.output@ + rest, start + 1)
                == Ok::<(usize, int), Error>((def, m.len() as int)) by {
            let t = self.output@.subrange(m.len() as int, self.output@.len() as int);
            assert(self.output@ + rest =~= m + (t + rest));
            assert(spec_read_usize(m + (t + rest), start + 1) == Ok::<(usize, int), Error>((def, m.len() as int)));
        }
    }
}

/// Decoding at `start` of the bytes `out` gives `value` and stops at the end
/// of `out`, whatever follows and with any definitions and hint.
pub open spec fn reads_back(out: Seq<u8>, start: int, value: BinValue) -> bool {
    forall|rest: Seq<u8>, defs: Seq<Seq<Seq<char>>>, hint: DecodeHint|
        #[trigger] spec_bin_decode(out + rest, start, defs, hint) == Ok::<
            (BinValue, int, Seq<Seq<Seq<char>>>),
            Error,
        >((value, out.len() as int, defs))
}

impl<'s> SpecEncoder for SimpleBinSpecEncoder<'s> {
    type AnySpecEncoder = ();
    type SomeCloser = ();
    type TupleEncoder = ();
    type SeqEncoder = ();
    type MapEncoder = ();
    type ValueEncoder = ();
    type EntryCloser = ();
    type TupleStructEncoder = ();
    type StructEncoder = ();
    type TupleVariantEncoder = ();
    type StructVariantEncoder = ();

    open spec fn encode_prim_spec(&self, any: (), prim: Primitive, r: Result<(), Error>, next: Self) -> bool {
        &&& r is Ok
        &&& next.output() == self.output() + bin_prim_bytes(prim)
        &&& next.defs() == self.defs()
    }

    open spec fn encode_str_spec(&self, any: (), s: Seq<char>, r: Result<(), Error>, next: Self) -> bool {
        &&& r is Ok
        &&& next.output() == self.output().push(tag_byte(TypeTag::String)) + text_bytes(s)
        &&& next.defs() == self.defs()
    }

    open spec fn encode_bytes_spec(&self, any: (), s: Seq<u8>, r: Result<(), Error>, next: Self) -> bool {
        &&& r is Ok
        &&& next.output() == self.output().push(tag_byte(TypeTag::Bytes)) + byte_string_bytes(s)
        &&& next.defs() == self.defs()
    }

    open spec fn encode_none_spec(&self, any: (), r: Result<(), Error>, next: Self) -> bool {
        &&& r is Ok
        &&& next.output() == self.output().push(tag_byte(TypeTag::OptionNone))
        &&& next.defs() == self.defs()
    }

    open spec fn encode_some_spec(&self, any: (), r: Result<((), ()), Error>, next: Self) -> bool {
        &&& r is Ok
        &&& next.output() == self.output().push(tag_byte(TypeTag::OptionSome))
        &&& next.defs() == self.defs()
    }

    open spec fn encode_unit_struct_spec(&self, any: (), name: &'static str, r: Result<(), Error>, next: Self) -> bool {
        &&& r is Ok
        &&& next.output() == self.output().push(tag_byte(TypeTag::UnitStruct))
        &&& next.defs() == self.defs()
    }

    open spec fn encode_tuple_struct_spec(
        &self,
        any: (),
        name: &'static str,
        len: usize,
        r: Result<(), Error>,
        next: Self,
    ) -> bool {
        &&& r is Ok
        &&& next.output() == self.output() + counted_bytes(TypeTag::TupleStruct, len)
        &&& next.defs() == self.defs()
    }

    open spec fn encode_struct_spec(
        &self,
        any: (),
        name: &'static str,
        fields: &'static [&'static str],
        r: Result<(), Error>,
        next: Self,
    ) -> bool {
        let (def, bytes, defs) = enum_def_step(self.defs(), names_view(fields@));
        &&& r is Ok
        &&& next.output() == self.output() + bytes + struct_header_bytes(def)
        &&& next.defs() == defs
    }

    open spec fn encode_unit_variant_spec(
        &self,
        any: (),
        name: &'static str,
        variants: &'static [&'static str],
        variant_index: usize,
        r: Result<(), Error>,
        next: Self,
    ) -> bool {
        let (def, bytes, defs) = enum_def_step(self.defs(), names_view(variants@));
        &&& r is Ok
        &&& next.output() == self.output() + bytes + enum_header_bytes(def, variant_index).push(tag_byte(TypeTag::Unit))
        &&& next.defs() == defs
    }

    open spec fn encode_tuple_variant_spec(
        &self,
        any: (),
        name: &'static str,
        variants: &'static [&'static str],
        variant_index: usize,
        len: usize,
        r: Result<(), Error>,
        next: Self,
    ) -> bool {
        let (def, bytes, defs) = enum_def_step(self.defs(), names_view(variants@));
        &&& r is Ok
        &&& next.output() == self.output() + bytes + enum_header_bytes(def, variant_index) + counted_bytes(TypeTag::TupleStruct, len)
        &&& next.defs() == defs
    }

    open spec fn encode_struct_variant_spec(
        &self,
        any: (),
        name: &'static str,
        variants: &'static [&'static str],
        variant_index: usize,
        fields: &'static [&'static str],
        r: Result<(), Error>,
        next: Self,
    ) -> bool {
        let (vdef, vbytes, defs1) = enum_def_step(self.defs(), names_view(variants@));
        let (fdef, fbytes, defs2) = enum_def_step(defs1, names_view(fields@));
        &&& r is Ok
        &&& next.output() == self.output() + vbytes + fbytes + enum_header_bytes(vdef, variant_index) + struct_header_bytes(fdef)
        &&& next.defs() == defs2
    }

    open spec fn encode_seq_spec(&self, any: (), len: Option<usize>, r: Result<(), Error>, next: Self) -> bool {
        &&& next.defs() == self.defs()
        &&& match len {
            Some(n) => r is Ok && next.output() == self.output() + counted_bytes(TypeTag::Sequence, n),
            None => r == Err::<(), Error>(Error::BinEncoder(BinEncoderError::MissingLen)) && next.output() == self.output(),
        }
    }

    open spec fn encode_tuple_spec(&self, any: (), len: usize, r: Result<(), Error>, next: Self) -> bool {
        &&& r is Ok
        &&& next.output() == self.output() + counted_bytes(TypeTag::Tuple, len)
        &&& next.defs() == self.defs()
    }

    open spec fn encode_map_spec(&self, any: (), len: Option<usize>, r: Result<(), Error>, next: Self) -> bool {
        &&& next.defs() == self.defs()
        &&& match len {
            Some(n) => r is Ok && next.output() == self.output() + counted_bytes(TypeTag::Mapping, n),
            None => r == Err::<(), Error>(Error::BinEncoder(BinEncoderError::MissingLen)) && next.output() == self.output(),
        }
    }

    open spec fn some_end_spec(&self, some: (), r: Result<(), Error>, next: Self) -> bool {
        r is Ok && next == *self
    }

    open spec fn tuple_encode_element_spec(&self, tuple: (), tuple_after: (), r: Result<(), Error>, next: Self) -> bool {
        r is Ok && next == *self
    }

    open spec fn tuple_end_spec(&self, tuple: (), r: Result<(), Error>, next: Self) -> bool {
        r is Ok && next == *self
    }

    open spec fn seq_encode_element_spec(&self, seq: (), seq_after: (), r: Result<(), Error>, next: Self) -> bool {
        r is Ok && next == *self
    }

    open spec fn seq_end_spec(&self, seq: (), r: Result<(), Error>, next: Self) -> bool {
        r is Ok && next == *self
    }

    open spec fn map_encode_element_spec(&self, map: (), map_after: (), r: Result<((), ()), Error>, next: Self) -> bool {
        r is Ok && next == *self
    }

    open spec fn map_end_spec(&self, map: (), r: Result<(), Error>, next: Self) -> bool {
        r is Ok && next == *self
    }

    open spec fn entry_encode_value_spec(&self, value: (), r: Result<((), ()), Error>, next: Self) -> bool {
        r is Ok && next == *self
    }

    open spec fn entry_end_spec(&self, closer: (), r: Result<(), Error>, next: Self) -> bool {
        r is Ok && next == *self
    }

    open spec fn tuple_struct_encode_field_spec(&self, s: (), s_after: (), r: Result<(), Error>, next: Self) -> bool {
        r is Ok && next == *self
    }

    open spec fn tuple_struct_end_spec(&self, s: (), r: Result<(), Error>, next: Self) -> bool {
        r is Ok && next == *self
    }

    open spec fn struct_encode_field_spec(
        &self,
        s: (),
        s_after: (),
        field: &'static str,
        r: Result<(), Error>,
        next: Self,
    ) -> bool {
        r is Ok && next == *self
    }

    open spec fn struct_end_spec(&self, s: (), r: Result<(), Error>, next: Self) -> bool {
        r is Ok && next == *self
    }

    open spec fn tuple_variant_encode_field_spec(&self, v: (), v_after: (), r: Result<(), Error>, next: Self) -> bool {
        r is Ok && next == *self
    }

    open spec fn tuple_variant_end_spec(&self, v: (), r: Result<(), Error>, next: Self) -> bool {
        r is Ok && next == *self
    }

    open spec fn struct_variant_encode_field_spec(
        &self,
        v: (),
        v_after: (),
        field: &'static str,
        r: Result<(), Error>,
        next: Self,
    ) -> bool {
        r is Ok && next == *self
    }

    open spec fn struct_variant_end_spec(&self, v: (), r: Result<(), Error>, next: Self) -> bool {
        r is Ok && next == *self
    }

    open spec fn human_readable_spec(&self) -> bool {
        false
    }

    fn encode_prim(&mut self, any: (), prim: Primitive) -> (r: Result<(), Error>)
        ensures
            r is Ok,
            final(self).output() == old(self).output() + bin_prim_bytes(prim),
            final(self).defs() == old(self).defs(),
            type_of(prim) != PrimitiveType::F64 ==> reads_back(
                final(self).output(),
                old(self).output().len() as int,
                BinValue::Primitive(prim),
            ),
    {
        let ghost start = self.output@.len() as int;
        self.write_tag(TypeTag::of_primitive(prim.primitive_type()))?;
        write_payload(&mut self.output, prim);
        assert(self.output@ =~= old(self).output@ + bin_prim_bytes(prim));
        proof {
            lemma_tag_round_trip(prim_tag(type_of(prim)));
            assert forall|rest: Seq<u8>, defs: Seq<Seq<Seq<char>>>, hint: DecodeHint|
                type_of(prim) != PrimitiveType::F64 implies #[trigger] spec_bin_decode(self.output@ + rest, start, defs, hint)
                    == Ok::<(BinValue, int, Seq<Seq<Seq<char>>>), Error>(
                    (BinValue::Primitive(prim), self.output@.len() as int, defs),
                ) by {
                assert((self.output@ + rest)[start] == tag_byte(prim_tag(type_of(prim))));
                assert(spec_read_payload(self.output@ + rest, start + 1, type_of(prim))
                    == Ok::<(Primitive, int), ReadError>((prim, self.output@.len() as int)));
            }
        }
        Ok(())
    }

    fn encode_str(&mut self, any: (), s: &str) -> (r: Result<(), Error>)
        ensures
            r is Ok,
            final(self).output() == old(self).output().push(tag_byte(TypeTag::String)) + text_bytes(s@),
            final(self).defs() == old(self).defs(),
            reads_back(final(self).output(), old(self).output().len() as int, BinValue::Text(s@)),
    {
        let ghost start = self.output@.len() as int;
        self.write_tag(TypeTag::String)?;
        self.write_str_slice(s)?;
        proof {
            lemma_tag_round_trip(TypeTag::String);
            assert forall|rest: Seq<u8>, defs: Seq<Seq<Seq<char>>>, hint: DecodeHint|
                #[trigger] spec_bin_decode(self.output@ + rest, start, defs, hint)
                    == Ok::<(BinValue, int, Seq<Seq<Seq<char>>>), Error>(
                    (BinValue::Text(s@), self.output@.len() as int, defs),
                ) by {
                assert((self.output@ + rest)[start] == tag_byte(TypeTag::String));
                assert(spec_read_text(self.output@ + rest, start + 1)
                    == Ok::<(Seq<char>, int), Error>((s@, self.output@.len() as int)));
            }
        }
        Ok(())
    }

    fn encode_bytes(&mut self, any: (), s: &[u8]) -> (r: Result<(), Error>)
        ensures
            r is Ok,
            final(self).output() == old(self).output().push(tag_byte(TypeTag::Bytes)) + byte_string_bytes(s@),
            final(self).defs() == old(self).defs(),
            reads_back(final(self).output(), old(self).output().len() as int, BinValue::ByteString(s@)),
    {
        let ghost start = self.output@.len() as int;
        self.write_tag(TypeTag::Bytes)?;
        self.write_byte_slice(s)?;
        proof {
            lemma_tag_round_trip(TypeTag::Bytes);
            assert forall|rest: Seq<u8>, defs: Seq<Seq<Seq<char>>>, hint: DecodeHint|
                #[trigger] spec_bin_decode(self.output@ + rest, start, defs, hint)
                    == Ok::<(BinValue, int, Seq<Seq<Seq<char>>>), Error>(
                    (BinValue::ByteString(s@), self.output@.len() as int, defs),
                ) by {
                assert((self.output@ + rest)[start] == tag_byte(TypeTag::Bytes));
                assert(spec_read_bytes(self.output@ + rest, start + 1)
                    == Ok::<(Seq<u8>, int), Error>((s@, self.output@.len() as int)));
            }
        }
        Ok(())
    }

    fn encode_none(&mut self, any: ()) -> (r: Result<(), Error>)
        ensures
            r is Ok,
            final(self).output() == old(self).output().push(tag_byte(TypeTag::OptionNone)),
            final(self).defs() == old(self).defs(),
            reads_back(final(self).output(), old(self).output().len() as int, BinValue::Absent),
    {
        let ghost start = self.output@.len() as int;
        self.write_tag(TypeTag::OptionNone)?;
        proof {
            lemma_tag_round_trip(TypeTag::OptionNone);
            assert forall|rest: Seq<u8>, defs: Seq<Seq<Seq<char>>>, hint: DecodeHint|
                #[trigger] spec_bin_decode(self.output@ + rest, start, defs, hint)
                    == Ok::<(BinValue, int, Seq<Seq<Seq<char>>>), Error>(
                    (BinValue::Absent, self.output@.len() as int, defs),
                ) by {
                assert((self.output@ + rest)[start] == tag_byte(TypeTag::OptionNone));
            }
        }
        Ok(())
    }

    fn encode_some(&mut self, any: ()) -> (r: Result<((), ()), Error>)
        ensures
            r is Ok,
            final(self).output() == old(self).output().push(tag_byte(TypeTag::OptionSome)),
            final(self).defs() == old(self).defs(),
            reads_back(final(self).output(), old(self).output().len() as int, BinValue::Present),
    {
        let ghost start = self.output@.len() as int;
        self.write_tag(TypeTag::OptionSome)?;
        proof {
            lemma_tag_round_trip(TypeTag::OptionSome);
            assert forall|rest: Seq<u8>, defs: Seq<Seq<Seq<char>>>, hint: DecodeHint|
                #[trigger] spec_bin_decode(self.output@ + rest, start, defs, hint)
                    == Ok::<(BinValue, int, Seq<Seq<Seq<char>>>), Error>(
                    (BinValue::Present, self.output@.len() as int, defs),
                ) by {
                assert((self.output@ + rest)[start] == tag_byte(TypeTag::OptionSome));
            }
        }
        Ok(((), ()))
    }

    fn encode_unit_struct(&mut self, any: (), name: &'static str) -> (r: Result<(), Error>)
        ensures
            r is Ok,
            final(self).output() == old(self).output().push(tag_byte(TypeTag::UnitStruct)),
            final(self).defs() == old(self).defs(),
            reads_back(final(self).output(), old(self).output().len() as int, BinValue::Primitive(Primitive::Unit)),
    {
        let ghost start = self.output@.len() as int;
        self.write_tag(TypeTag::UnitStruct)?;
        proof {
            lemma_tag_round_trip(TypeTag::UnitStruct);
            assert forall|rest: Seq<u8>, defs: Seq<Seq<Seq<char>>>, hint: DecodeHint|
                #[trigger] spec_bin_decode(self.output@ + rest, start, defs, hint)
                    == Ok::<(BinValue, int, Seq<Seq<Seq<char>>>), Error>(
                    (BinValue::Primitive(Primitive::Unit), self.output@.len() as int, defs),
                ) by {
                assert((self.output@ + rest)[start] == tag_byte(TypeTag::UnitStruct));
            }
        }
        Ok(())
    }

    fn encode_tuple_struct(&mut self, any: (), name: &'static str, len: usize) -> (r: Result<(), Error>)
        ensures
            r is Ok,
            final(self).output() == old(self).output() + counted_bytes(TypeTag::TupleStruct, len),
            final(self).defs() == old(self).defs(),
            reads_back(final(self).output(), old(self).output().len() as int, BinValue::Items(len)),
    {
        let ghost start = self.output@.len() as int;
        self.write_tag(TypeTag::TupleStruct)?;
        self.write_usize(len)?;
        proof {
            lemma_tag_round_trip(TypeTag::TupleStruct);
            assert forall|rest: Seq<u8>, defs: Seq<Seq<Seq<char>>>, hint: DecodeHint|
                #[trigger] spec_bin_decode(self.output@ + rest, start, defs, hint)
                    == Ok::<(BinValue, int, Seq<Seq<Seq<char>>>), Error>(
                    (BinValue::Items(len), self.output@.len() as int, defs),
                ) by {
                assert((self.output@ + rest)[start] == tag_byte(TypeTag::TupleStruct));
                assert(spec_read_usize(self.output@ + rest, start + 1)
                    == Ok::<(usize, int), Error>((len, self.output@.len() as int)));
            }
        }
        assert(self.output@ =~= old(self).output@ + counted_bytes(TypeTag::TupleStruct, len));
        Ok(())
    }

    fn encode_struct(&mut self, any: (), name: &'static str, fields: &'static [&'static str]) -> (r: Result<(), Error>)
        ensures
            r is Ok,
            ({
                let (def, bytes, defs) = enum_def_step(old(self).defs(), names_view(fields@));
                &&& final(self).output() == old(self).output() + bytes + struct_header_bytes(def)
                &&& final(self).defs() == defs
            }),
            forall|rest: Seq<u8>, hint: DecodeHint|
                #[trigger] spec_bin_decode(final(self).output() + rest, old(self).output().len() as int, old(self).defs(), hint)
                    == Ok::<(BinValue, int, Seq<Seq<Seq<char>>>), Error>((
                    BinValue::Fields(key_names(names_view(fields@), hint_fields(hint))),
                    final(self).output().len() as int,
                    final(self).defs(),
                )),
    {
        let ghost start = self.output@.len() as int;
        let ghost defs0 = self.defs();
        let ghost d = names_view(fields@);
        let def = self.get_or_write_enum_def(fields)?;
        let ghost mid = self.output@;
        self.write_tag(TypeTag::Struct)?;
        self.write_usize(def)?;
        assert(self.output@ =~= old(self).output@ + enum_def_step(old(self).defs(), names_view(fields@)).1 + struct_header_bytes(def));
        proof {
            lemma_tag_round_trip(TypeTag::Struct);
            lemma_tag_round_trip(TypeTag::EnumDef);
            lemma_first_index_of(defs0, d);
            assert forall|rest: Seq<u8>, hint: DecodeHint|
                #[trigger] spec_bin_decode(self.output@ + rest, start, defs0, hint)
                    == Ok::<(BinValue, int, Seq<Seq<Seq<char>>>), Error>((
                    BinValue::Fields(key_names(d, hint_fields(hint))),
                    self.output@.len() as int,
                    self.defs(),
                )) by {
                let data = self.output@ + rest;
                let tail = self.output@.subrange(mid.len() as int, self.output@.len() as int);
                assert(data =~= mid + (tail + rest));
                assert(data[mid.len() as int] == tag_byte(TypeTag::Struct));
                assert(spec_read_usize(data, mid.len() + 1int)
                    == Ok::<(usize, int), Error>((def, self.output@.len() as int)));
                if first_index_of(defs0, d) is None {
                    assert(enum_def_bytes(d)[0] == tag_byte(TypeTag::EnumDef));
                    assert(data[start] == tag_byte(TypeTag::EnumDef));
                    assert(spec_read_enum_def(mid + (tail + rest), start + 1)
                        == Ok::<(Seq<Seq<char>>, int), Error>((d, mid.len() as int)));
                    assert(defs0.push(d)[def as int] == d);
                    assert(spec_bin_decode(data, mid.len() as int, defs0.push(d), hint)
                        == Ok::<(BinValue, int, Seq<Seq<Seq<char>>>), Error>((
                        BinValue::Fields(key_names(d, hint_fields(hint))),
                        self.output@.len() as int,
                        defs0.push(d),
                    )));
                }
            }
        }
        Ok(())
    }

    fn encode_unit_variant(
        &mut self,
        any: (),
        name: &'static str,
        variants: &'static [&'static str],
        variant_index: usize,
    ) -> (r: Result<(), Error>)
        ensures
            r is Ok,
            ({
                let (def, bytes, defs) = enum_def_step(old(self).defs(), names_view(variants@));
                &&& final(self).output() == old(self).output() + bytes + enum_header_bytes(def, variant_index).push(tag_byte(TypeTag::Unit))
                &&& final(self).defs() == defs
            }),
            variant_index < variants@.len() ==> forall|rest: Seq<u8>, hint: DecodeHint|
                hint_variants(hint) is Some ==> #[trigger] spec_bin_decode(
                    final(self).output() + rest,
                    old(self).output().len() as int,
                    old(self).defs(),
                    hint,
                ) == Ok::<(BinValue, int, Seq<Seq<Seq<char>>>), Error>((
                    BinValue::Variant(key_names(names_view(variants@), hint_variants(hint))[variant_index as int]),
                    final(self).output().len() - 1,
                    final(self).defs(),
                )),
            reads_back(final(self).output(), final(self).output().len() - 1, BinValue::Primitive(Primitive::Unit)),
    {
        let ghost start = self.output@.len() as int;
        let ghost defs0 = self.defs();
        let def = self.get_or_write_enum_def(variants)?;
        let ghost mid = self.output@;
        let ghost defs1 = self.defs();
        self.write_enum_header(def, variant_index);
        let ghost hdr = self.output@;
        self.write_tag(TypeTag::Unit)?;
        assert(self.output@ =~= old(self).output@ + enum_def_step(old(self).defs(), names_view(variants@)).1 + enum_header_bytes(def, variant_index).push(tag_byte(TypeTag::Unit)));
        proof {
            assert forall|rest: Seq<u8>, hint: DecodeHint|
                variant_index < variants@.len() && hint_variants(hint) is Some implies #[trigger] spec_bin_decode(
                    self.output@ + rest,
                    start,
                    defs0,
                    hint,
                ) == Ok::<(BinValue, int, Seq<Seq<Seq<char>>>), Error>((
                    BinValue::Variant(key_names(names_view(variants@), hint_variants(hint))[variant_index as int]),
                    hdr.len() as int,
                    defs1,
                )) by {
                let data = self.output@ + rest;
                let t1 = self.output@.subrange(mid.len() as int, self.output@.len() as int);
                assert(data =~= mid + (t1 + rest));
                assert(spec_bin_decode(mid + (t1 + rest), start, defs0, hint)
                    == spec_bin_decode(mid + (t1 + rest), mid.len() as int, defs1, hint));
                let t2 = self.output@.subrange(hdr.len() as int, self.output@.len() as int);
                assert(data =~= hdr + (t2 + rest));
                let p: int = mid.len() + 1int + usize_bytes(def).len();
                assert(spec_read_usize(hdr + (t2 + rest), mid.len() + 1int) == Ok::<(usize, int), Error>((def, p)));
                assert(spec_read_usize(hdr + (t2 + rest), p) == Ok::<(usize, int), Error>((variant_index, hdr.len() as int)));
                assert(data[mid.len() as int] == hdr[mid.len() as int]);
                lemma_decode_enum_header(data, mid.len() as int, defs1, hint, def, variant_index, p, hdr.len() as int);
            }
            lemma_tag_round_trip(TypeTag::Unit);
            assert forall|rest: Seq<u8>, defs: Seq<Seq<Seq<char>>>, hint: DecodeHint|
                #[trigger] spec_bin_decode(self.output@ + rest, hdr.len() as int, defs, hint)
                    == Ok::<(BinValue, int, Seq<Seq<Seq<char>>>), Error>(
                    (BinValue::Primitive(Primitive::Unit), self.output@.len() as int, defs),
                ) by {
                assert((self.output@ + rest)[hdr.len() as int] == tag_byte(TypeTag::Unit));
            }
        }
        Ok(())
    }

    fn encode_tuple_variant(
        &mut self,
        any: (),
        name: &'static str,
        variants: &'static [&'static str],
        variant_index: usize,
        len: usize,
    ) -> (r: Result<(), Error>)
        ensures
            r is Ok,
            ({
                let (def, bytes, defs) = enum_def_step(old(self).defs(), names_view(variants@));
                &&& final(self).output() == old(self).output() + bytes + enum_header_bytes(def, variant_index) + counted_bytes(TypeTag::TupleStruct, len)
                &&& final(self).defs() == defs
            }),
            variant_index < variants@.len() ==> forall|rest: Seq<u8>, hint: DecodeHint|
                hint_variants(hint) is Some ==> #[trigger] spec_bin_decode(
                    final(self).output() + rest,
                    old(self).output().len() as int,
                    old(self).defs(),
                    hint,
                ) == Ok::<(BinValue, int, Seq<Seq<Seq<char>>>), Error>((
                    BinValue::Variant(key_names(names_view(variants@), hint_variants(hint))[variant_index as int]),
                    final(self).output().len() - counted_bytes(TypeTag::TupleStruct, len).len(),
                    final(self).defs(),
                )),
            reads_back(
                final(self).output(),
                final(self).output().len() - counted_bytes(TypeTag::TupleStruct, len).len(),
                BinValue::Items(len),
            ),
    {
        let ghost start = self.output@.len() as int;
        let ghost defs0 = self.defs();
        let def = self.get_or_write_enum_def(variants)?;
        let ghost mid = self.output@;
        let ghost defs1 = self.defs();
        self.write_enum_header(def, variant_index);
        let ghost hdr = self.output@;
        self.write_tag(TypeTag::TupleStruct)?;
        self.write_usize(len)?;
        proof {
            assert(self.output@ =~= hdr + counted_bytes(TypeTag::TupleStruct, len));
            assert forall|rest: Seq<u8>, hint: DecodeHint|
                variant_index < variants@.len() && hint_variants(hint) is Some implies #[trigger] spec_bin_decode(
                    self.output@ + rest,
                    start,
                    defs0,
                    hint,
                ) == Ok::<(BinValue, int, Seq<Seq<Seq<char>>>), Error>((
                    BinValue::Variant(key_names(names_view(variants@), hint_variants(hint))[variant_index as int]),
                    hdr.len() as int,
                    defs1,
                )) by {
                let data = self.output@ + rest;
                let t1 = self.output@.subrange(mid.len() as int, self.output@.len() as int);
                assert(data =~= mid + (t1 + rest));
                assert(spec_bin_decode(mid + (t1 + rest), start, defs0, hint)
                    == spec_bin_decode(mid + (t1 + rest), mid.len() as int, defs1, hint));
                let t2 = self.output@.subrange(hdr.len() as int, self.output@.len() as int);
                assert(data =~= hdr + (t2 + rest));
                let p: int = mid.len() + 1int + usize_bytes(def).len();
                assert(spec_read_usize(hdr + (t2 + rest), mid.len() + 1int) == Ok::<(usize, int), Error>((def, p)));
                assert(spec_read_usize(hdr + (t2 + rest), p) == Ok::<(usize, int), Error>((variant_index, hdr.len() as int)));
                assert(data[mid.len() as int] == hdr[mid.len() as int]);
                lemma_decode_enum_header(data, mid.len() as int, defs1, hint, def, variant_index, p, hdr.len() as int);
            }
            lemma_tag_round_trip(TypeTag::TupleStruct);
            assert forall|rest: Seq<u8>, defs: Seq<Seq<Seq<char>>>, hint: DecodeHint|
                #[trigger] spec_bin_decode(self.output@ + rest, hdr.len() as int, defs, hint)
                    == Ok::<(BinValue, int, Seq<Seq<Seq<char>>>), Error>(
                    (BinValue::Items(len), self.output@.len() as int, defs),
                ) by {
                assert((self.output@ + rest)[hdr.len() as int] == tag_byte(TypeTag::TupleStruct));
                assert(spec_read_usize(self.output@ + rest, hdr.len() + 1int)
                    == Ok::<(usize, int), Error>((len, self.output@.len() as int)));
            }
        }
        assert(self.output@ =~= old(self).output@ + enum_def_step(old(self).defs(), names_view(variants@)).1 + enum_header_bytes(def, variant_index) + counted_bytes(TypeTag::TupleStruct, len));
        Ok(())
    }

    #[verifier::rlimit(80)]
    #[verifier::spinoff_prover]
    fn encode_struct_variant(
        &mut self,
        any: (),
        name: &'static str,
        variants: &'static [&'static str],
        variant_index: usize,
        fields: &'static [&'static str],
    ) -> (r: Result<(), Error>)
        ensures
            r is Ok,
            ({
                let (vdef, vbytes, defs1) = enum_def_step(old(self).defs(), names_view(variants@));
                let (fdef, fbytes, defs2) = enum_def_step(defs1, names_view(fields@));
                &&& final(self).output() == old(self).output() + vbytes + fbytes + enum_header_bytes(vdef, variant_index) + struct_header_bytes(fdef)
                &&& final(self).defs() == defs2
                &&& (variant_index < variants@.len() ==> forall|rest: Seq<u8>, hint: DecodeHint|
                    hint_variants(hint) is Some ==> #[trigger] spec_bin_decode(
                        final(self).output() + rest,
                        old(self).output().len() as int,
                        old(self).defs(),
                        hint,
                    ) == Ok::<(BinValue, int, Seq<Seq<Seq<char>>>), Error>((
                        BinValue::Variant(key_names(names_view(variants@), hint_variants(hint))[variant_index as int]),
                        final(self).output().len() - struct_header_bytes(fdef).len(),
                        defs2,
                    )))
                &&& forall|rest: Seq<u8>, hint: DecodeHint|
                    #[trigger] spec_bin_decode(
                        final(self).output() + rest,
                        final(self).output().len() - struct_header_bytes(fdef).len(),
                        defs2,
                        hint,
                    ) == Ok::<(BinValue, int, Seq<Seq<Seq<char>>>), Error>((
                        BinValue::Fields(key_names(names_view(fields@), hint_fields(hint))),
                        final(self).output().len() as int,
                        defs2,
                    ))
            }),
    {
        let ghost start = self.output@.len() as int;
        let ghost defs0 = self.defs();
        let vdef = self.get_or_write_enum_def(variants)?;
        let ghost m0 = self.output@;
        let ghost defs_v = self.defs();
        let fdef = self.get_or_write_enum_def(fields)?;
        let ghost mid = self.output@;
        let ghost defs1 = self.defs();
        let ghost fbytes = enum_def_step(enum_def_step(old(self).defs(), names_view(variants@)).2, names_view(fields@)).1;
        let def = vdef;
        self.write_enum_header(vdef, variant_index);
        let ghost hdr = self.output@;
        self.write_tag(TypeTag::Struct)?;
        self.write_usize(fdef)?;
        assert(self.output@ =~= old(self).output@ + enum_def_step(old(self).defs(), names_view(variants@)).1 + fbytes + enum_header_bytes(vdef, variant_index) + struct_header_bytes(fdef));
        proof {
            assert(self.output@ =~= hdr + struct_header_bytes(fdef));
            assert forall|rest: Seq<u8>, hint: DecodeHint|
                variant_index < variants@.len() && hint_variants(hint) is Some implies #[trigger] spec_bin_decode(
                    self.output@ + rest,
                    start,
                    defs0,
                    hint,
                ) == Ok::<(BinValue, int, Seq<Seq<Seq<char>>>), Error>((
                    BinValue::Variant(key_names(names_view(variants@), hint_variants(hint))[variant_index as int]),
                    hdr.len() as int,
                    defs1,
                )) by {
                let data = self.output@ + rest;
                let t0 = self.output@.subrange(m0.len() as int, self.output@.len() as int);
                assert(data =~= m0 + (t0 + rest));
                assert(spec_bin_decode(m0 + (t0 + rest), start, defs0, hint)
                    == spec_bin_decode(m0 + (t0 + rest), m0.len() as int, defs_v, hint));
                let data = self.output@ + rest;
                let t1 = self.output@.subrange(mid.len() as int, self.output@.len() as int);
                assert(data =~= mid + (t1 + rest));
                assert(spec_bin_decode(mid + (t1 + rest), m0.len() as int, defs_v, hint)
                    == spec_bin_decode(mid + (t1 + rest), mid.len() as int, defs1, hint));
                let t2 = self.output@.subrange(hdr.len() as int, self.output@.len() as int);
                assert(data =~= hdr + (t2 + rest));
                let p: int = mid.len() + 1int + usize_bytes(def).len();
                assert(spec_read_usize(hdr + (t2 + rest), mid.len() + 1int) == Ok::<(usize, int), Error>((def, p)));
                assert(spec_read_usize(hdr + (t2 + rest), p) == Ok::<(usize, int), Error>((variant_index, hdr.len() as int)));
                assert(data[mid.len() as int] == hdr[mid.len() as int]);
                lemma_decode_enum_header(data, mid.len() as int, defs1, hint, def, variant_index, p, hdr.len() as int);
            }
            lemma_tag_round_trip(TypeTag::Struct);
            assert forall|rest: Seq<u8>, hint: DecodeHint|
                #[trigger] spec_bin_decode(self.output@ + rest, hdr.len() as int, defs1, hint)
                    == Ok::<(BinValue, int, Seq<Seq<Seq<char>>>), Error>((
                    BinValue::Fields(key_names(names_view(fields@), hint_fields(hint))),
                    self.output@.len() as int,
                    defs1,
                )) by {
                assert((self.output@ + rest)[hdr.len() as int] == tag_byte(TypeTag::Struct));
                assert(spec_read_usize(self.output@ + rest, hdr.len() + 1int)
                    == Ok::<(usize, int), Error>((fdef, self.output@.len() as int)));
            }
        }
        Ok(())
    }

    fn encode_seq(&mut self, any: (), len: Option<usize>) -> (r: Result<(), Error>)
        ensures
            match len {
                Some(n) => r is Ok && final(self).output() == old(self).output() + counted_bytes(TypeTag::Sequence, n)
                    && reads_back(final(self).output(), old(self).output().len() as int, BinValue::Items(n)),
                None => r == Err::<(), Error>(Error::BinEncoder(BinEncoderError::MissingLen)) && final(self).output() == old(self).output(),
            },
            final(self).defs() == old(self).defs(),
    {
        match len {
            Some(n) => {
                let ghost start = self.output@.len() as int;
                self.write_tag(TypeTag::Sequence)?;
                self.write_usize(n)?;
                proof {
                    lemma_tag_round_trip(TypeTag::Sequence);
                    assert forall|rest: Seq<u8>, defs: Seq<Seq<Seq<char>>>, hint: DecodeHint|
                        #[trigger] spec_bin_decode(self.output@ + rest, start, defs, hint)
                            == Ok::<(BinValue, int, Seq<Seq<Seq<char>>>), Error>(
                            (BinValue::Items(n), self.output@.len() as int, defs),
                        ) by {
                        assert((self.output@ + rest)[start] == tag_byte(TypeTag::Sequence));
                        assert(spec_read_usize(self.output@ + rest, start + 1)
                            == Ok::<(usize, int), Error>((n, self.output@.len() as int)));
                    }
                }
                assert(self.output@ =~= old(self).output@ + counted_bytes(TypeTag::Sequence, n));
                Ok(())
            },
            None => Err(Error::BinEncoder(BinEncoderError::MissingLen)),
        }
    }

    fn encode_tuple(&mut self, any: (), len: usize) -> (r: Result<(), Error>)
        ensures
            r is Ok,
            final(self).output() == old(self).output() + counted_bytes(TypeTag::Tuple, len),
            final(self).defs() == old(self).defs(),
            reads_back(final(self).output(), old(self).output().len() as int, BinValue::Items(len)),
    {
        let ghost start = self.output@.len() as int;
        self.write_tag(TypeTag::Tuple)?;
        self.write_usize(len)?;
        proof {
            lemma_tag_round_trip(TypeTag::Tuple);
            assert forall|rest: Seq<u8>, defs: Seq<Seq<Seq<char>>>, hint: DecodeHint|
                #[trigger] spec_bin_decode(self.output@ + rest, start, defs, hint)
                    == Ok::<(BinValue, int, Seq<Seq<Seq<char>>>), Error>(
                    (BinValue::Items(len), self.output@.len() as int, defs),
                ) by {
                assert((self.output@ + rest)[start] == tag_byte(TypeTag::Tuple));
                assert(spec_read_usize(self.output@ + rest, start + 1)
                    == Ok::<(usize, int), Error>((len, self.output@.len() as int)));
            }
        }
        assert(self.output@ =~= old(self).output@ + counted_bytes(TypeTag::Tuple, len));
        Ok(())
    }

    fn encode_map(&mut self, any: (), len: Option<usize>) -> (r: Result<(), Error>)
        ensures
            match len {
                Some(n) => r is Ok && final(self).output() == old(self).output() + counted_bytes(TypeTag::Mapping, n)
                    && reads_back(final(self).output(), old(self).output().len() as int, BinValue::Entries(n)),
                None => r == Err::<(), Error>(Error::BinEncoder(BinEncoderError::MissingLen)) && final(self).output() == old(self).output(),
            },
            final(self).defs() == old(self).defs(),
    {
        match len {
            Some(n) => {
                let ghost start = self.output@.len() as int;
                self.write_tag(TypeTag::Mapping)?;
                self.write_usize(n)?;
                proof {
                    lemma_tag_round_trip(TypeTag::Mapping);
                    assert forall|rest: Seq<u8>, defs: Seq<Seq<Seq<char>>>, hint: DecodeHint|
                        #[trigger] spec_bin_decode(self.output@ + rest, start, defs, hint)
                            == Ok::<(BinValue, int, Seq<Seq<Seq<char>>>), Error>(
                            (BinValue::Entries(n), self.output@.len() as int, defs),
                        ) by {
                        assert((self.output@ + rest)[start] == tag_byte(TypeTag::Mapping));
                        assert(spec_read_usize(self.output@ + rest, start + 1)
                            == Ok::<(usize, int), Error>((n, self.output@.len() as int)));
                    }
                }
                assert(self.output@ =~= old(self).output@ + counted_bytes(TypeTag::Mapping, n));
                Ok(())
            },
            None => Err(Error::BinEncoder(BinEncoderError::MissingLen)),
        }
    }

    fn some_end(&mut self, some: ()) -> (r: Result<(), Error>)
        ensures r is Ok, *final(self) == *old(self),
    {
        Ok(())
    }

    fn tuple_encode_element(&mut self, tuple: &mut ()) -> (r: Result<(), Error>)
        ensures r is Ok, *final(self) == *old(self),
    {
        Ok(())
    }

    fn tuple_end(&mut self, tuple: ()) -> (r: Result<(), Error>)
        ensures r is Ok, *final(self) == *old(self),
    {
        Ok(())
    }

    fn seq_encode_element(&mut self, seq: &mut ()) -> (r: Result<(), Error>)
        ensures r is Ok, *final(self) == *old(self),
    {
        Ok(())
    }

    fn seq_end(&mut self, seq: ()) -> (r: Result<(), Error>)
        ensures r is Ok, *final(self) == *old(self),
    {
        Ok(())
    }

    fn map_encode_element(&mut self, map: &mut ()) -> (r: Result<((), ()), Error>)
        ensures r is Ok, *final(self) == *old(self),
    {
        Ok(((), ()))
    }

    fn map_end(&mut self, map: ()) -> (r: Result<(), Error>)
        ensures r is Ok, *final(self) == *old(self),
    {
        Ok(())
    }

    fn entry_encode_value(&mut self, value: ()) -> (r: Result<((), ()), Error>)
        ensures r is Ok, *final(self) == *old(self),
    {
        Ok(((), ()))
    }

    fn entry_end(&mut self, closer: ()) -> (r: Result<(), Error>)
        ensures r is Ok, *final(self) == *old(self),
    {
        Ok(())
    }

    fn tuple_struct_encode_field(&mut self, s: &mut ()) -> (r: Result<(), Error>)
        ensures r is Ok, *final(self) == *old(self),
    {
        Ok(())
    }

    fn tuple_struct_end(&mut self, s: ()) -> (r: Result<(), Error>)
        ensures r is Ok, *final(self) == *old(self),
    {
        Ok(())
    }

    fn struct_encode_field(&mut self, s: &mut (), field: &'static str) -> (r: Result<(), Error>)
        ensures r is Ok, *final(self) == *old(self),
    {
        Ok(())
    }

    fn struct_end(&mut self, s: ()) -> (r: Result<(), Error>)
        ensures r is Ok, *final(self) == *old(self),
    {
        Ok(())
    }

    fn tuple_variant_encode_field(&mut self, v: &mut ()) -> (r: Result<(), Error>)
        ensures r is Ok, *final(self) == *old(self),
    {
        Ok(())
    }

    fn tuple_variant_end(&mut self, v: ()) -> (r: Result<(), Error>)
        ensures r is Ok, *final(self) == *old(self),
    {
        Ok(())
    }

    fn struct_variant_encode_field(&mut self, v: &mut (), field: &'static str) -> (r: Result<(), Error>)
        ensures r is Ok, *final(self) == *old(self),
    {
        Ok(())
    }

    fn struct_variant_end(&mut self, v: ()) -> (r: Result<(), Error>)
        ensures r is Ok, *final(self) == *old(self),
    {
        Ok(())
    }

    fn is_human_readable(&self) -> (r: bool)
        ensures !r,
    {
        false
    }
}

} // verus!
