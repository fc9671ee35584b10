//! The decoder of the fixed-layout format.
use vstd::prelude::*;
use crate::decode::{DecodeHint, DecodeVariantHint, SimpleDecoderView, SpecDecoder};
use crate::error::{Error, FixedError, ReadError};
use crate::fixed::{
    DiscriminantWidth,
    FixedValue,
    discriminant_prim,
    fixed_read_error,
    lemma_fixed_decode_advances,
    spec_fixed_decode,
    spec_fixed_read_bytes,
    spec_fixed_read_len,
    spec_fixed_read_text,
    spec_read_discriminant,
};
use crate::payload::read_payload;
use crate::primitive::{Primitive, PrimitiveType};
use crate::text::{spec_utf8_string, utf8_string};
use crate::vu128::{VU128_PADDING, read_u32, read_u64};

verus! {

/// The decoder: the input and the position reached in it.
pub struct SimpleFixedSpecDecoder<'de> {
    data: &'de [u8],
    pos: usize,
}

/// What the next value is read from: the input, or the variant index that
/// the enum's discriminant step gives out.
#[derive(Debug, Copy, Clone, PartialEq, Eq, Structural)]
pub enum FixedAnyDecoder {
    Any,
    Discriminant(usize),
}

/// The handle of a sequence, tuple or struct: the number of items left.
pub struct FixedSeqDecoder {
    len: usize,
}

impl FixedSeqDecoder {
    pub closed spec fn remaining(&self) -> usize {
        self.len
    }
}

/// The handle of a map: the number of entries left.
pub struct FixedMapDecoder {
    len: usize,
}

impl FixedMapDecoder {
    pub closed spec fn remaining(&self) -> usize {
        self.len
    }
}

/// The handle of an enum value: its variant index.
pub struct FixedDiscriminantDecoder {
    discriminant: usize,
}

impl FixedDiscriminantDecoder {
    pub closed spec fn discriminant(&self) -> usize {
        self.discriminant
    }
}

/// The values that a view of this decoder holds.
pub open spec fn fixed_view_value<'de>(v: SimpleDecoderView<SimpleFixedSpecDecoder<'de>>) -> FixedValue {
    match v {
        SimpleDecoderView::Primitive(p) => FixedValue::Primitive(p),
        SimpleDecoderView::String(s) => FixedValue::Text(s@),
        SimpleDecoderView::Bytes(b) => FixedValue::ByteString(b@),
        SimpleDecoderView::OptionNone => FixedValue::Absent,
        SimpleDecoderView::OptionSome(_) => FixedValue::Present,
        SimpleDecoderView::Sequence(s) => FixedValue::Items(s.remaining()),
        SimpleDecoderView::Mapping(m) => FixedValue::Entries(m.remaining()),
        SimpleDecoderView::Enum(d) => FixedValue::Variant(d.discriminant()),
    }
}

/// The error of a failed low-level read in this format.
fn to_fixed_error(e: ReadError) -> (r: Error)
    ensures
        r == fixed_read_error(e),
{
    match e {
        ReadError::Eof => Error::Fixed(FixedError::UnexpectedEof),
        ReadError::IntConversion => Error::IntConversion,
        ReadError::InvalidChar => Error::InvalidChar,
    }
}

/// The variant index as a primitive of kind `t`.
fn discriminant_to_prim(disc: usize, t: PrimitiveType) -> (r: Result<Primitive, Error>)
    ensures
        r == discriminant_prim(disc, t),
{
    match t {
        PrimitiveType::I8 => if disc <= i8::MAX as usize { Ok(Primitive::I8(disc as i8)) } else { Err(Error::IntConversion) },
        PrimitiveType::I16 => if disc <= i16::MAX as usize { Ok(Primitive::I16(disc as i16)) } else { Err(Error::IntConversion) },
        PrimitiveType::I32 => if disc <= i32::MAX as usize { Ok(Primitive::I32(disc as i32)) } else { Err(Error::IntConversion) },
        PrimitiveType::I64 => if disc as u64 <= i64::MAX as u64 { Ok(Primitive::I64(disc as i64)) } else { Err(Error::IntConversion) },
        PrimitiveType::I128 => Ok(Primitive::I128(disc as i128)),
        PrimitiveType::U8 => if disc <= u8::MAX as usize { Ok(Primitive::U8(disc as u8)) } else { Err(Error::IntConversion) },
        PrimitiveType::U16 => if disc <= u16::MAX as usize { Ok(Primitive::U16(disc as u16)) } else { Err(Error::IntConversion) },
        PrimitiveType::U32 => if disc as u64 <= u32::MAX as u64 { Ok(Primitive::U32(disc as u32)) } else { Err(Error::IntConversion) },
        PrimitiveType::U64 => Ok(Primitive::U64(disc as u64)),
        PrimitiveType::U128 => Ok(Primitive::U128(disc as u128)),
        _ => Err(Error::Fixed(FixedError::UnsupportedHint)),
    }
}

impl<'de> SimpleFixedSpecDecoder<'de> {
    #[verifier::type_invariant]
    spec fn within_input(&self) -> bool {
        self.pos <= self.data@.len()
    }

    /// The whole input.
    pub closed spec fn input(&self) -> Seq<u8> {
        self.data@
    }

    /// The position reached in the input.
    pub closed spec fn position(&self) -> int {
        self.pos as int
    }

    /// The input not yet read.
    pub open spec fn rest(&self) -> Seq<u8> {
        self.input().subrange(self.position(), self.input().len() as int)
    }

    pub fn new(data: &'de [u8]) -> (r: Self)
        ensures
            r.input() == data@,
            r.position() == 0,
    {
        SimpleFixedSpecDecoder { data, pos: 0 }
    }

    /// Checks that only the zero padding is left of the input.
    pub fn end(self) -> (r: Result<(), Error>)
        ensures
            r == (if self.rest().len() > VU128_PADDING {
                Err(Error::Fixed(FixedError::TrailingData))
            } else if exists|i: int| 0 <= i < self.rest().len() && self.rest()[i] != 0u8 {
                Err(Error::Fixed(FixedError::NonZeroPadding))
            } else {
                Ok(())
            }),
    {
        proof {
            use_type_invariant(&self);
        }
        let n = self.data.len() - self.pos;
        if n > VU128_PADDING {
            return Err(Error::Fixed(FixedError::TrailingData));
        }
        assert(self.rest().len() == n);
        let mut i: usize = self.pos;
        while i < self.data.len()
            invariant
                self.pos <= i <= self.data@.len(),
                self.rest().len() <= VU128_PADDING,
                self.rest() == self.data@.subrange(self.pos as int, self.data@.len() as int),
                forall|j: int| self.pos <= j < i ==> self.data@[j] == 0u8,
            decreases self.data@.len() - i,
        {
            if self.data[i] != 0 {
                let ghost k: int = i - self.pos;
                assert(self.rest()[k] == self.data@[i as int]);
                assert(0 <= k < self.rest().len() && self.rest()[k] != 0u8);
                return Err(Error::Fixed(FixedError::NonZeroPadding));
            }
            i = i + 1;
        }
        assert forall|k: int| 0 <= k < self.rest().len() implies self.rest()[k] == 0u8 by {
            assert(self.rest()[k] == self.data@[self.pos + k]);
        }
        Ok(())
    }

    /// A length.
    fn read_len(&mut self) -> (r: Result<usize, Error>)
        ensures
            final(self).input() == old(self).input(),
            match r {
                Ok(n) => spec_fixed_read_len(old(self).input(), old(self).position())
                    == Ok::<(usize, int), Error>((n, final(self).position())),
                Err(e) => spec_fixed_read_len(old(self).input(), old(self).position())
                    == Err::<(usize, int), Error>(e) && final(self).position() == old(
                    self,
                ).position(),
            },
    {
        proof {
            use_type_invariant(&*self);
        }
        match read_u64(self.data, self.pos) {
            None => Err(Error::Fixed(FixedError::UnexpectedEof)),
            Some((v, p)) => {
                if v <= usize::MAX as u64 {
                    self.pos = p;
                    Ok(v as usize)
                } else {
                    Err(Error::IntConversion)
                }
            },
        }
    }

    /// A byte string: its length, then its bytes.  Where the length cannot
    /// be read the position stays; where fewer bytes are left than the
    /// length says, it stays after the length.
    pub fn decode_bytes(&mut self) -> (r: Result<Vec<u8>, Error>)
        ensures
            final(self).input() == old(self).input(),
            match spec_fixed_read_len(old(self).input(), old(self).position()) {
                Err(e) => r == Err::<Vec<u8>, Error>(e) && final(self).position() == old(self).position(),
                Ok((n, p)) => if p + n <= old(self).input().len() {
                    r matches Ok(b) && b@ == old(self).input().subrange(p, p + n) && final(self).position() == p + n
                } else {
                    r == Err::<Vec<u8>, Error>(Error::Fixed(FixedError::UnexpectedEof)) && final(self).position() == p
                },
            },
            match r {
                Ok(b) => spec_fixed_read_bytes(old(self).input(), old(self).position())
                    == Ok::<(Seq<u8>, int), Error>((b@, final(self).position())),
                Err(e) => spec_fixed_read_bytes(old(self).input(), old(self).position())
                    == Err::<(Seq<u8>, int), Error>(e),
            },
    {
        let len = self.read_len()?;
        proof {
            use_type_invariant(&*self);
        }
        if len <= self.data.len() - self.pos {
            let b = vstd::slice::slice_subrange(self.data, self.pos, self.pos + len);
            self.pos = self.pos + len;
            Ok(vstd::slice::slice_to_vec(b))
        } else {
            Err(Error::Fixed(FixedError::UnexpectedEof))
        }
    }

    /// A text: a byte string (`decode_bytes`) that must be UTF-8.  Where
    /// the bytes are read but are not UTF-8, the position is after them.
    pub fn decode_str(&mut self) -> (r: Result<String, Error>)
        ensures
            final(self).input() == old(self).input(),
            match spec_fixed_read_len(old(self).input(), old(self).position()) {
                Err(e) => r == Err::<String, Error>(e) && final(self).position() == old(self).position(),
                Ok((n, p)) => if p + n <= old(self).input().len() {
                    final(self).position() == p + n && match spec_utf8_string(old(self).input().subrange(p, p + n)) {
                        Some(t) => r matches Ok(x) && x@ == t,
                        None => r == Err::<String, Error>(Error::InvalidUtf8),
                    }
                } else {
                    r == Err::<String, Error>(Error::Fixed(FixedError::UnexpectedEof)) && final(self).position() == p
                },
            },
            match r {
                Ok(s) => spec_fixed_read_text(old(self).input(), old(self).position())
                    == Ok::<(Seq<char>, int), Error>((s@, final(self).position())),
                Err(e) => spec_fixed_read_text(old(self).input(), old(self).position())
                    == Err::<(Seq<char>, int), Error>(e),
            },
    {
        let b = self.decode_bytes()?;
        match utf8_string(b.as_slice()) {
            Some(s) => Ok(s),
            None => Err(Error::InvalidUtf8),
        }
    }

    /// A primitive of kind `t`.
    fn decode_prim(&mut self, t: PrimitiveType) -> (r: Result<Primitive, Error>)
        ensures
            final(self).input() == old(self).input(),
            match spec_fixed_decode(old(self).input(), old(self).position(), FixedAnyDecoder::Any, DecodeHint::Primitive(t)) {
                Ok((v, q)) => r matches Ok(p) && v == FixedValue::Primitive(p) && final(self).position() == q,
                Err(e) => r == Err::<Primitive, Error>(e),
            },
    {
        proof {
            use_type_invariant(&*self);
        }
        match read_payload(self.data, self.pos, t) {
            Ok((p, q)) => {
                self.pos = q;
                Ok(p)
            },
            Err(e) => Err(to_fixed_error(e)),
        }
    }

    /// The variant index of an enum with `variants` variants.  A failed
    /// read leaves the position as it was.
    pub fn decode_discriminant(&mut self, variants: usize) -> (r: Result<usize, Error>)
        ensures
            final(self).input() == old(self).input(),
            r is Err ==> final(self).position() == old(self).position(),
            match r {
                Ok(d) => spec_read_discriminant(old(self).input(), old(self).position(), variants)
                    == Ok::<(usize, int), Error>((d, final(self).position())),
                Err(e) => spec_read_discriminant(old(self).input(), old(self).position(), variants)
                    == Err::<(usize, int), Error>(e),
            },
    {
        proof {
            use_type_invariant(&*self);
        }
        let w = DiscriminantWidth::from_max(variants);
        match w {
            DiscriminantWidth::U64 => match read_u64(self.data, self.pos) {
                Some((v, p)) => {
                    self.pos = p;
                    Ok(v as usize)
                },
                None => Err(Error::Fixed(FixedError::UnexpectedEof)),
            },
            _ => match read_u32(self.data, self.pos) {
                None => Err(Error::Fixed(FixedError::UnexpectedEof)),
                Some((v, p)) => {
                    if (w == DiscriminantWidth::U8 && v > u8::MAX as u32) || (w == DiscriminantWidth::U16
                        && v > u16::MAX as u32) {
                        Err(Error::IntConversion)
                    } else {
                        self.pos = p;
                        Ok(v as usize)
                    }
                },
            },
        }
    }
}

impl<'de> SpecDecoder for SimpleFixedSpecDecoder<'de> {
    type AnyDecoder = FixedAnyDecoder;
    type SeqDecoder = FixedSeqDecoder;
    type MapDecoder = FixedMapDecoder;
    type KeyDecoder = ();
    type ValueDecoder = ();
    type DiscriminantDecoder = FixedDiscriminantDecoder;
    type VariantDecoder = ();
    type EnumCloser = ();
    type SomeDecoder = ();
    type SomeCloser = ();

    closed spec fn input_left(&self) -> nat {
        (self.input().len() - self.position()) as nat
    }

    closed spec fn seq_left(seq: FixedSeqDecoder) -> nat {
        seq.remaining() as nat
    }

    closed spec fn map_left(map: FixedMapDecoder) -> nat {
        map.remaining() as nat
    }

    closed spec fn decode_state(
        &self,
        any: FixedAnyDecoder,
        hint: DecodeHint,
        r: Result<SimpleDecoderView<SimpleFixedSpecDecoder<'de>>, Error>,
        next: Self,
    ) -> bool {
        next.input() == self.input() && match spec_fixed_decode(self.input(), self.position(), any, hint) {
            Ok((value, q)) => next.position() == q,
            Err(e) => true,
        }
    }

    closed spec fn seq_next_state(&self, seq: FixedSeqDecoder, seq_after: FixedSeqDecoder, next: Self) -> bool {
        &&& next == *self
        &&& seq.remaining() > 0 ==> seq_after.remaining() == seq.remaining() - 1
        &&& seq.remaining() == 0 ==> seq_after.remaining() == 0
    }

    closed spec fn seq_end_state(&self, seq: FixedSeqDecoder, next: Self) -> bool {
        next == *self
    }

    closed spec fn map_next_state(
        &self,
        map: FixedMapDecoder,
        map_after: FixedMapDecoder,
        r: Result<Option<()>, Error>,
        next: Self,
    ) -> bool {
        &&& next == *self
        &&& map.remaining() > 0 ==> map_after.remaining() == map.remaining() - 1
        &&& map.remaining() == 0 ==> map_after.remaining() == 0
    }

    closed spec fn map_end_state(&self, map: FixedMapDecoder, next: Self) -> bool {
        next == *self
    }

    closed spec fn entry_key_state(&self, key: (), next: Self) -> bool {
        next == *self
    }

    closed spec fn entry_value_state(&self, value: (), next: Self) -> bool {
        next == *self
    }

    closed spec fn enum_discriminant_state(&self, e: FixedDiscriminantDecoder, next: Self) -> bool {
        next == *self
    }

    closed spec fn enum_variant_state(
        &self,
        e: (),
        hint: DecodeVariantHint,
        r: Result<(SimpleDecoderView<SimpleFixedSpecDecoder<'de>>, ()), Error>,
        next: Self,
    ) -> bool {
        next == *self
    }

    closed spec fn enum_end_state(&self, e: (), next: Self) -> bool {
        next == *self
    }

    closed spec fn some_inner_state(&self, e: (), next: Self) -> bool {
        next == *self
    }

    closed spec fn some_end_state(&self, p: (), next: Self) -> bool {
        next == *self
    }

    closed spec fn decode_spec(
        &self,
        any: FixedAnyDecoder,
        hint: DecodeHint,
        r: Result<SimpleDecoderView<SimpleFixedSpecDecoder<'de>>, Error>,
    ) -> bool {
        match spec_fixed_decode(self.input(), self.position(), any, hint) {
            Ok((value, q)) => r matches Ok(v) && fixed_view_value(v) == value,
            Err(e) => r matches Err(f) && f == e,
        }
    }

    fn decode(&mut self, any: FixedAnyDecoder, hint: DecodeHint) -> (r: Result<SimpleDecoderView<Self>, Error>)
        ensures
            final(self).input() == old(self).input(),
            match spec_fixed_decode(old(self).input(), old(self).position(), any, hint) {
                Ok((value, q)) => r matches Ok(v) && fixed_view_value(v) == value && final(self).position() == q,
                Err(e) => r matches Err(f) && f == e,
            },
    {
        proof {
            use_type_invariant(&*self);
            lemma_fixed_decode_advances(self.input(), self.position(), any, hint);
        }
        match any {
            FixedAnyDecoder::Discriminant(disc) => {
                return match hint {
                    DecodeHint::Primitive(t) => match discriminant_to_prim(disc, t) {
                        Ok(p) => Ok(SimpleDecoderView::Primitive(p)),
                        Err(e) => Err(e),
                    },
                    _ => Err(Error::Fixed(FixedError::UnsupportedHint)),
                };
            },
            FixedAnyDecoder::Any => {},
        }
        match hint {
            DecodeHint::Primitive(t) => {
                let p = self.decode_prim(t)?;
                Ok(SimpleDecoderView::Primitive(p))
            },
            DecodeHint::String => {
                let s = self.decode_str()?;
                Ok(SimpleDecoderView::String(s))
            },
            DecodeHint::Bytes => {
                let b = self.decode_bytes()?;
                Ok(SimpleDecoderView::Bytes(b))
            },
            DecodeHint::Option => {
                let p = self.decode_prim(PrimitiveType::Bool)?;
                match p {
                    Primitive::Bool(true) => Ok(SimpleDecoderView::OptionSome(())),
                    _ => Ok(SimpleDecoderView::OptionNone),
                }
            },
            DecodeHint::UnitStruct { name } => Ok(SimpleDecoderView::Primitive(Primitive::Unit)),
            DecodeHint::Sequence => {
                proof {
                    use_type_invariant(&*self);
                }
                match read_u64(self.data, self.pos) {
                    Some((v, p)) => {
                        self.pos = p;
                        Ok(SimpleDecoderView::Sequence(FixedSeqDecoder { len: v as usize }))
                    },
                    None => Err(Error::Fixed(FixedError::UnexpectedEof)),
                }
            },
            DecodeHint::Tuple { len } => Ok(SimpleDecoderView::Sequence(FixedSeqDecoder { len })),
            DecodeHint::TupleStruct { name, len } => Ok(SimpleDecoderView::Sequence(FixedSeqDecoder { len })),
            DecodeHint::Mapping => {
                proof {
                    use_type_invariant(&*self);
                }
                match read_u64(self.data, self.pos) {
                    Some((v, p)) => {
                        self.pos = p;
                        Ok(SimpleDecoderView::Mapping(FixedMapDecoder { len: v as usize }))
                    },
                    None => Err(Error::Fixed(FixedError::UnexpectedEof)),
                }
            },
            DecodeHint::Struct { name, fields } => Ok(SimpleDecoderView::Sequence(FixedSeqDecoder { len: fields.len() })),
            DecodeHint::Enum { name, variants } => {
                let d = self.decode_discriminant(variants.len())?;
                Ok(SimpleDecoderView::Enum(FixedDiscriminantDecoder { discriminant: d }))
            },
            _ => Err(Error::Fixed(FixedError::UnsupportedHint)),
        }
    }

    closed spec fn human_readable_spec(&self) -> bool {
        false
    }

    fn is_human_readable(&self) -> (r: bool)
        ensures
            !r,
    {
        false
    }

    /// The number of items left is not given out: the reader goes until
    /// the decoder says there are none.
    closed spec fn seq_exact_size_spec(&self, seq: FixedSeqDecoder) -> Option<usize> {
        None
    }

    fn decode_seq_exact_size(&self, seq: &FixedSeqDecoder) -> (r: Option<usize>) {
        None
    }

    closed spec fn map_exact_size_spec(&self, map: FixedMapDecoder) -> Option<usize> {
        None
    }

    fn decode_map_exact_size(&self, map: &FixedMapDecoder) -> (r: Option<usize>) {
        None
    }

    closed spec fn seq_next_spec(&self, seq: FixedSeqDecoder) -> Result<Option<FixedAnyDecoder>, Error> {
        if seq.len > 0 {
            Ok(Some(FixedAnyDecoder::Any))
        } else {
            Ok(None)
        }
    }

    fn decode_seq_next(&mut self, seq: &mut FixedSeqDecoder) -> (r: Result<Option<FixedAnyDecoder>, Error>)
        ensures
            *final(self) == *old(self),
            old(seq).remaining() > 0 ==> (r == Ok::<Option<FixedAnyDecoder>, Error>(Some(FixedAnyDecoder::Any))
                && final(seq).remaining() == old(seq).remaining() - 1),
            old(seq).remaining() == 0 ==> (r == Ok::<Option<FixedAnyDecoder>, Error>(None)
                && final(seq).remaining() == 0),
    {
        if seq.len > 0 {
            seq.len = seq.len - 1;
            Ok(Some(FixedAnyDecoder::Any))
        } else {
            Ok(None)
        }
    }

    closed spec fn seq_end_spec(&self, seq: FixedSeqDecoder) -> Result<(), Error> {
        Ok(())
    }

    closed spec fn map_end_spec(&self, map: FixedMapDecoder) -> Result<(), Error> {
        Ok(())
    }

    closed spec fn enum_end_spec(&self, e: ()) -> Result<(), Error> {
        Ok(())
    }

    closed spec fn some_end_spec(&self, p: ()) -> Result<(), Error> {
        Ok(())
    }

    fn decode_seq_end(&mut self, seq: FixedSeqDecoder) -> (r: Result<(), Error>)
        ensures
            r is Ok,
            *final(self) == *old(self),
    {
        Ok(())
    }

    closed spec fn map_next_spec(&self, map: FixedMapDecoder, r: Result<Option<()>, Error>) -> bool {
        if map.len > 0 {
            r == Ok::<Option<()>, Error>(Some(()))
        } else {
            r == Ok::<Option<()>, Error>(None)
        }
    }

    fn decode_map_next(&mut self, map: &mut FixedMapDecoder) -> (r: Result<Option<()>, Error>)
        ensures
            *final(self) == *old(self),
            old(map).remaining() > 0 ==> (r == Ok::<Option<()>, Error>(Some(()))
                && final(map).remaining() == old(map).remaining() - 1),
            old(map).remaining() == 0 ==> (r == Ok::<Option<()>, Error>(None) && final(map).remaining() == 0),
    {
        if map.len > 0 {
            map.len = map.len - 1;
            Ok(Some(()))
        } else {
            Ok(None)
        }
    }

    fn decode_map_end(&mut self, map: FixedMapDecoder) -> (r: Result<(), Error>)
        ensures
            r is Ok,
            *final(self) == *old(self),
    {
        Ok(())
    }

    closed spec fn entry_key_spec(&self, key: ()) -> Result<(FixedAnyDecoder, ()), Error> {
        Ok((FixedAnyDecoder::Any, ()))
    }

    closed spec fn entry_value_spec(&self, value: ()) -> Result<FixedAnyDecoder, Error> {
        Ok(FixedAnyDecoder::Any)
    }

    closed spec fn enum_discriminant_spec(&self, e: FixedDiscriminantDecoder) -> Result<(FixedAnyDecoder, ()), Error> {
        Ok((FixedAnyDecoder::Discriminant(e.discriminant), ()))
    }

    closed spec fn some_inner_spec(&self, e: ()) -> Result<(FixedAnyDecoder, ()), Error> {
        Ok((FixedAnyDecoder::Any, ()))
    }

    fn decode_entry_key(&mut self, key: ()) -> (r: Result<(FixedAnyDecoder, ()), Error>)
        ensures
            *final(self) == *old(self),
            r == Ok::<(FixedAnyDecoder, ()), Error>((FixedAnyDecoder::Any, ())),
    {
        Ok((FixedAnyDecoder::Any, ()))
    }

    fn decode_entry_value(&mut self, value: ()) -> (r: Result<FixedAnyDecoder, Error>)
        ensures
            *final(self) == *old(self),
            r == Ok::<FixedAnyDecoder, Error>(FixedAnyDecoder::Any),
    {
        Ok(FixedAnyDecoder::Any)
    }

    fn decode_enum_discriminant(&mut self, e: FixedDiscriminantDecoder) -> (r: Result<(FixedAnyDecoder, ()), Error>)
        ensures
            *final(self) == *old(self),
            r == Ok::<(FixedAnyDecoder, ()), Error>((FixedAnyDecoder::Discriminant(e.discriminant()), ())),
    {
        Ok((FixedAnyDecoder::Discriminant(e.discriminant), ()))
    }

    closed spec fn enum_variant_spec(
        &self,
        e: (),
        hint: DecodeVariantHint,
        r: Result<(SimpleDecoderView<SimpleFixedSpecDecoder<'de>>, ()), Error>,
    ) -> bool {
        match hint {
            DecodeVariantHint::UnitVariant => r matches Ok((v, ())) && fixed_view_value(v) == FixedValue::Primitive(
                Primitive::Unit,
            ),
            DecodeVariantHint::TupleVariant { len } => r matches Ok((v, ())) && fixed_view_value(v)
                == FixedValue::Items(len),
            DecodeVariantHint::StructVariant { fields } => r matches Ok((v, ())) && fixed_view_value(v)
                == FixedValue::Items(fields@.len() as usize),
            DecodeVariantHint::Ignore => r matches Err(f) && f == Error::Fixed(FixedError::UnsupportedHint),
        }
    }

    fn decode_enum_variant(&mut self, e: (), hint: DecodeVariantHint) -> (r: Result<
        (SimpleDecoderView<Self>, ()),
        Error,
    >)
        ensures
            *final(self) == *old(self),
            match hint {
                DecodeVariantHint::UnitVariant => r matches Ok((v, ()))
                    && fixed_view_value(v) == FixedValue::Primitive(Primitive::Unit),
                DecodeVariantHint::TupleVariant { len } => r matches Ok((v, ())) && fixed_view_value(v)
                    == FixedValue::Items(len),
                DecodeVariantHint::StructVariant { fields } => r matches Ok((v, ())) && fixed_view_value(v)
                    == FixedValue::Items(fields@.len() as usize),
                DecodeVariantHint::Ignore => r matches Err(f) && f == Error::Fixed(FixedError::UnsupportedHint),
            },
    {
        match hint {
            DecodeVariantHint::UnitVariant => Ok((SimpleDecoderView::Primitive(Primitive::Unit), ())),
            DecodeVariantHint::TupleVariant { len } => Ok((SimpleDecoderView::Sequence(FixedSeqDecoder { len }), ())),
            DecodeVariantHint::StructVariant { fields } => Ok(
                (SimpleDecoderView::Sequence(FixedSeqDecoder { len: fields.len() }), ()),
            ),
            DecodeVariantHint::Ignore => Err(Error::Fixed(FixedError::UnsupportedHint)),
        }
    }

    fn decode_enum_end(&mut self, e: ()) -> (r: Result<(), Error>)
        ensures
            r is Ok,
            *final(self) == *old(self),
    {
        Ok(())
    }

    fn decode_some_inner(&mut self, e: ()) -> (r: Result<(FixedAnyDecoder, ()), Error>)
        ensures
            *final(self) == *old(self),
            r == Ok::<(FixedAnyDecoder, ()), Error>((FixedAnyDecoder::Any, ())),
    {
        Ok((FixedAnyDecoder::Any, ()))
    }

    fn decode_some_end(&mut self, p: ()) -> (r: Result<(), Error>)
        ensures
            r is Ok,
            *final(self) == *old(self),
    {
        Ok(())
    }
}

} // verus!
