//! The writer of the self-describing binary format: the encoder's writing of
//! the format behind the writing interface, which writes variant indexes and
//! tuple lengths as 32-bit values and reports its own error for a missing
//! length.
use vstd::prelude::*;
use crate::bin_format::{TypeTag, tag_byte};
use crate::bin_format::decode::BinValue;
use crate::bin_format::encode::{
    BinEncoderSchema,
    SimpleBinSpecEncoder,
    bin_prim_bytes,
    byte_string_bytes,
    counted_bytes,
    enum_def_step,
    reads_back,
    struct_header_bytes,
    text_bytes,
    usize_bytes,
};
use crate::encode::SpecEncoder;
use crate::error::{BinWriterError, Error};
use crate::primitive::{Primitive, PrimitiveType, type_of};
use crate::text::names_view;
use crate::vu128::{ToFromVu128, VU128_PADDING, vu128_encoded_u32};

verus! {

/// The enum definitions that a writer has written, kept across messages.
pub struct BinWriterSchema {
    inner: BinEncoderSchema,
}

impl BinWriterSchema {
    /// The definitions in the order they were written.
    pub closed spec fn defs(&self) -> Seq<Seq<Seq<char>>> {
        self.inner.defs()
    }

    pub fn new() -> (r: Self)
        ensures
            r.defs() == Seq::<Seq<Seq<char>>>::empty(),
    {
        BinWriterSchema { inner: BinEncoderSchema::new() }
    }
}

/// The writer: the bytes written so far and the schema it shares.
pub struct SimpleBinWriter<'s> {
    inner: SimpleBinSpecEncoder<'s>,
}

/// The bytes that open an enum value as the writer writes it: the tag, the
/// definition of the variant names and the variant's index as a `u32`.
pub open spec fn writer_enum_header_bytes(def: usize, variant_index: u32) -> Seq<u8> {
    seq![tag_byte(TypeTag::Enum)] + usize_bytes(def) + vu128_encoded_u32(variant_index)
}

impl<'s> SimpleBinWriter<'s> {
    /// The bytes written so far.
    pub closed spec fn output(&self) -> Seq<u8> {
        self.inner.output()
    }

    /// The definitions of the shared schema.
    pub closed spec fn defs(&self) -> Seq<Seq<Seq<char>>> {
        self.inner.defs()
    }

    pub fn new(schema: &'s mut BinWriterSchema) -> (r: SimpleBinWriter<'s>)
        ensures
            r.output() == Seq::<u8>::empty(),
            r.defs() == old(schema).defs(),
    {
        SimpleBinWriter { inner: SimpleBinSpecEncoder::new(&mut schema.inner) }
    }

    /// The message: what was written, then the zero padding.
    pub fn end(self) -> (r: Result<Vec<u8>, Error>)
        ensures
            r matches Ok(v) && v@ == self.output() + Seq::new(VU128_PADDING as nat, |i: int| 0u8),
    {
        self.inner.end()
    }

    /// Writes a value in its `vu128` encoding.
    pub fn write_vu128<T: ToFromVu128>(&mut self, value: T) -> (r: Result<(), Error>)
        ensures
            r is Ok,
            final(self).output() == old(self).output() + T::vu128_bytes(value),
            final(self).defs() == old(self).defs(),
    {
        self.inner.write_vu128(value)
    }

    pub fn write_raw(&mut self, value: &[u8]) -> (r: Result<(), Error>)
        ensures
            r is Ok,
            final(self).output() == old(self).output() + value@,
            final(self).defs() == old(self).defs(),
    {
        self.inner.write_raw(value)
    }

    pub fn write_tag(&mut self, tag: TypeTag) -> (r: Result<(), Error>)
        ensures
            r is Ok,
            final(self).output() == old(self).output().push(tag_byte(tag)),
            final(self).defs() == old(self).defs(),
    {
        self.inner.write_tag(tag)
    }

    pub fn write_usize(&mut self, value: usize) -> (r: Result<(), Error>)
        ensures
            r is Ok,
            final(self).output() == old(self).output() + usize_bytes(value),
            final(self).defs() == old(self).defs(),
    {
        self.inner.write_usize(value)
    }

    pub fn write_byte_slice(&mut self, value: &[u8]) -> (r: Result<(), Error>)
        ensures
            r is Ok,
            final(self).output() == old(self).output() + byte_string_bytes(value@),
            final(self).defs() == old(self).defs(),
    {
        self.inner.write_byte_slice(value)
    }

    pub fn write_str_slice(&mut self, value: &str) -> (r: Result<(), Error>)
        ensures
            r is Ok,
            final(self).output() == old(self).output() + text_bytes(value@),
            final(self).defs() == old(self).defs(),
    {
        self.inner.write_str_slice(value)
    }

    /// The index of a definition of these names, written first if this
    /// schema has not written it yet.
    pub fn get_or_write_enum_def(&mut self, variants: &'static [&'static str]) -> (r: Result<usize, Error>)
        ensures
            ({
                let (index, bytes, defs) = enum_def_step(old(self).defs(), names_view(variants@));
                &&& r == Ok::<usize, Error>(index)
                &&& final(self).output() == old(self).output() + bytes
                &&& final(self).defs() == defs
            }),
    {
        self.inner.get_or_write_enum_def(variants)
    }

    /// Writes a primitive value: its tag and its payload.
    pub fn write_prim(&mut self, any: (), prim: Primitive) -> (r: Result<(), Error>)
        ensures
            r is Ok,
            final(self).output() == old(self).output() + bin_prim_bytes(prim),
            final(self).defs() == old(self).defs(),
            type_of(prim) != PrimitiveType::F64 ==> reads_back(
                final(self).output(),
                old(self).output().len() as int,
                BinValue::Primitive(prim),
            ),
    {
        self.inner.encode_prim(any, prim)
    }

    pub fn write_str(&mut self, any: (), s: &str) -> (r: Result<(), Error>)
        ensures
            r is Ok,
            final(self).output() == old(self).output().push(tag_byte(TypeTag::String)) + text_bytes(s@),
            final(self).defs() == old(self).defs(),
            reads_back(final(self).output(), old(self).output().len() as int, BinValue::Text(s@)),
    {
        self.inner.encode_str(any, s)
    }

    pub fn write_bytes(&mut self, any: (), s: &[u8]) -> (r: Result<(), Error>)
        ensures
            r is Ok,
            final(self).output() == old(self).output().push(tag_byte(TypeTag::Bytes)) + byte_string_bytes(s@),
            final(self).defs() == old(self).defs(),
            reads_back(final(self).output(), old(self).output().len() as int, BinValue::ByteString(s@)),
    {
        self.inner.encode_bytes(any, s)
    }

    pub fn write_none(&mut self, any: ()) -> (r: Result<(), Error>)
        ensures
            r is Ok,
            final(self).output() == old(self).output().push(tag_byte(TypeTag::OptionNone)),
            final(self).defs() == old(self).defs(),
            reads_back(final(self).output(), old(self).output().len() as int, BinValue::Absent),
    {
        self.inner.encode_none(any)
    }

    pub fn write_some(&mut self, any: ()) -> (r: Result<((), ()), Error>)
        ensures
            r is Ok,
            final(self).output() == old(self).output().push(tag_byte(TypeTag::OptionSome)),
            final(self).defs() == old(self).defs(),
            reads_back(final(self).output(), old(self).output().len() as int, BinValue::Present),
    {
        self.inner.encode_some(any)
    }

    pub fn write_unit_struct(&mut self, any: (), name: &'static str) -> (r: Result<(), Error>)
        ensures
            r is Ok,
            final(self).output() == old(self).output().push(tag_byte(TypeTag::UnitStruct)),
            final(self).defs() == old(self).defs(),
            reads_back(final(self).output(), old(self).output().len() as int, BinValue::Primitive(Primitive::Unit)),
    {
        self.inner.encode_unit_struct(any, name)
    }

    pub fn write_tuple_struct(&mut self, any: (), name: &'static str, len: usize) -> (r: Result<(), Error>)
        ensures
            r is Ok,
            final(self).output() == old(self).output() + counted_bytes(TypeTag::TupleStruct, len),
            final(self).defs() == old(self).defs(),
            reads_back(final(self).output(), old(self).output().len() as int, BinValue::Items(len)),
    {
        self.inner.encode_tuple_struct(any, name, len)
    }

    pub fn write_struct(&mut self, any: (), name: &'static str, fields: &'static [&'static str]) -> (r: Result<
        (),
        Error,
    >)
        ensures
            r is Ok,
            ({
                let (def, bytes, defs) = enum_def_step(old(self).defs(), names_view(fields@));
                &&& final(self).output() == old(self).output() + bytes + struct_header_bytes(def)
                &&& final(self).defs() == defs
            }),
    {
        self.inner.encode_struct(any, name, fields)
    }

    pub fn write_unit_variant(
        &mut self,
        any: (),
        name: &'static str,
        variants: &'static [&'static str],
        variant_index: u32,
    ) -> (r: Result<(), Error>)
        ensures
            r is Ok,
            ({
                let (def, bytes, defs) = enum_def_step(old(self).defs(), names_view(variants@));
                &&& final(self).output() == old(self).output() + bytes + writer_enum_header_bytes(def, variant_index).push(
                    tag_byte(TypeTag::Unit),
                )
                &&& final(self).defs() == defs
            }),
    {
        let def = self.inner.get_or_write_enum_def(variants)?;
        let ghost bytes = self.inner.output();
        self.inner.write_tag(TypeTag::Enum)?;
        self.inner.write_usize(def)?;
        self.inner.write_vu128(variant_index)?;
        self.inner.write_tag(TypeTag::Unit)?;
        assert(self.inner.output() =~= bytes + writer_enum_header_bytes(def, variant_index).push(tag_byte(TypeTag::Unit)));
        Ok(())
    }

    pub fn write_tuple_variant(
        &mut self,
        any: (),
        name: &'static str,
        variants: &'static [&'static str],
        variant_index: u32,
        len: usize,
    ) -> (r: Result<(), Error>)
        ensures
            r is Ok,
            ({
                let (def, bytes, defs) = enum_def_step(old(self).defs(), names_view(variants@));
                &&& final(self).output() == old(self).output() + bytes + writer_enum_header_bytes(def, variant_index)
                    + counted_bytes(TypeTag::TupleStruct, len)
                &&& final(self).defs() == defs
            }),
    {
        let def = self.inner.get_or_write_enum_def(variants)?;
        let ghost bytes = self.inner.output();
        self.inner.write_tag(TypeTag::Enum)?;
        self.inner.write_usize(def)?;
        self.inner.write_vu128(variant_index)?;
        self.inner.write_tag(TypeTag::TupleStruct)?;
        self.inner.write_usize(len)?;
        assert(self.inner.output() =~= bytes + writer_enum_header_bytes(def, variant_index) + counted_bytes(
            TypeTag::TupleStruct,
            len,
        ));
        Ok(())
    }

    pub fn write_struct_variant(
        &mut self,
        any: (),
        name: &'static str,
        variants: &'static [&'static str],
        variant_index: u32,
        fields: &'static [&'static str],
    ) -> (r: Result<(), Error>)
        ensures
            r is Ok,
            ({
                let (vdef, vbytes, defs1) = enum_def_step(old(self).defs(), names_view(variants@));
                let (fdef, fbytes, defs2) = enum_def_step(defs1, names_view(fields@));
                &&& final(self).output() == old(self).output() + vbytes + fbytes + writer_enum_header_bytes(
                    vdef,
                    variant_index,
                ) + struct_header_bytes(fdef)
                &&& final(self).defs() == defs2
            }),
    {
        let vdef = self.inner.get_or_write_enum_def(variants)?;
        let fdef = self.inner.get_or_write_enum_def(fields)?;
        let ghost bytes = self.inner.output();
        self.inner.write_tag(TypeTag::Enum)?;
        self.inner.write_usize(vdef)?;
        self.inner.write_vu128(variant_index)?;
        self.inner.write_tag(TypeTag::Struct)?;
        self.inner.write_usize(fdef)?;
        assert(self.inner.output() =~= bytes + writer_enum_header_bytes(vdef, variant_index) + struct_header_bytes(
            fdef,
        ));
        Ok(())
    }

    /// Writes the header of a sequence; a sequence without a length is
    /// refused before anything is written.
    pub fn write_seq(&mut self, any: (), len: Option<usize>) -> (r: Result<(), Error>)
        ensures
            final(self).defs() == old(self).defs(),
            match len {
                Some(n) => r is Ok && final(self).output() == old(self).output() + counted_bytes(TypeTag::Sequence, n)
                    && reads_back(final(self).output(), old(self).output().len() as int, BinValue::Items(n)),
                None => r == Err::<(), Error>(Error::BinWriter(BinWriterError::MissingLen)) && final(self).output()
                    == old(self).output(),
            },
    {
        match len {
            Some(n) => self.inner.encode_seq(any, Some(n)),
            None => Err(Error::BinWriter(BinWriterError::MissingLen)),
        }
    }

    /// Writes the header of a tuple: its tag and its length cut to 32 bits.
    pub fn write_tuple(&mut self, any: (), len: usize) -> (r: Result<(), Error>)
        ensures
            r is Ok,
            final(self).output() == old(self).output().push(tag_byte(TypeTag::Tuple)) + vu128_encoded_u32(len as u32),
            final(self).defs() == old(self).defs(),
    {
        self.inner.write_tag(TypeTag::Tuple)?;
        self.inner.write_vu128(len as u32)?;
        Ok(())
    }

    /// Writes the header of a map.  The tag is written first, so a map
    /// without a length leaves its tag behind.
    pub fn write_map(&mut self, any: (), len: Option<usize>) -> (r: Result<(), Error>)
        ensures
            final(self).defs() == old(self).defs(),
            match len {
                Some(n) => r is Ok && final(self).output() == old(self).output() + counted_bytes(TypeTag::Mapping, n),
                None => r == Err::<(), Error>(Error::BinWriter(BinWriterError::MissingLen)) && final(self).output()
                    == old(self).output().push(tag_byte(TypeTag::Mapping)),
            },
    {
        self.inner.write_tag(TypeTag::Mapping)?;
        match len {
            Some(n) => {
                self.inner.write_usize(n)?;
                Ok(())
            },
            None => Err(Error::BinWriter(BinWriterError::MissingLen)),
        }
    }

    /// Ends a present option, a sequence, a map, an entry, a tuple, a struct
    /// or a variant: nothing is written.
    pub fn write_end(&mut self, closer: ()) -> (r: Result<(), Error>)
        ensures
            r is Ok,
            *final(self) == *old(self),
    {
        Ok(())
    }

    /// Starts an element, an entry's key or value, or a field: nothing is
    /// written.
    pub fn write_element(&mut self, handle: &mut ()) -> (r: Result<(), Error>)
        ensures
            r is Ok,
            *final(self) == *old(self),
    {
        Ok(())
    }

    pub fn is_human_readable(&self) -> (r: bool)
        ensures
            !r,
    {
        false
    }
}

/// Writes one message of the binary format.
pub struct BinWriterBuilder<'s> {
    inner: SimpleBinWriter<'s>,
}

impl<'s> BinWriterBuilder<'s> {
    /// The writer of the message.
    pub closed spec fn writer(&self) -> SimpleBinWriter<'s> {
        self.inner
    }

    pub fn new(schema: &'s mut BinWriterSchema) -> (r: Self)
        ensures
            r.writer().output() == Seq::<u8>::empty(),
            r.writer().defs() == old(schema).defs(),
    {
        BinWriterBuilder { inner: SimpleBinWriter::new(schema) }
    }

    /// The writer, to write the message's value with.
    pub fn build(&mut self) -> (r: &mut SimpleBinWriter<'s>)
        ensures
            *r == old(self).writer(),
            final(self).writer() == *final(r),
    {
        &mut self.inner
    }

    /// The message: what was written, then the zero padding.
    pub fn end(self) -> (r: Result<Vec<u8>, Error>)
        ensures
            r matches Ok(v) && v@ == self.writer().output() + Seq::new(VU128_PADDING as nat, |i: int| 0u8),
    {
        self.inner.end()
    }
}

} // verus!
