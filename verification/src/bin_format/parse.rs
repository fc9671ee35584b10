//! The parser of the self-describing binary format: the decoder's reading of
//! the format behind the parsing interface, which takes parse hints and
//! reports its own errors.
use vstd::prelude::*;
use crate::bin_format::decode::{
    BinAnyDecoder,
    BinDecoderSchema,
    BinDiscriminantDecoder,
    BinKeyDecoder,
    BinMapDecoder,
    BinSeqDecoder,
    BinValue,
    KeyName,
    SimpleBinDecoder,
    bin_defs_read,
    key_known,
    spec_bin_decode,
    variant_hint,
    view_value,
};
use crate::decode::{DecodeHint, DecodeVariantHint, SimpleDecoderView, SpecDecoder};
use crate::error::{BinDecoderError, BinParserError, Error, TypeMismatch};
use crate::parse::ParseHint;
use crate::primitive::{Primitive, kind_name, type_of};
use crate::vu128::VU128_PADDING;
use crate::bin_format::full::DEFAULT_DEPTH_BUDGET;
use crate::parse::poison::{PoisonAnyParser, PoisonError, PoisonState, guards};

verus! {

/// The enum definitions read so far, kept across the messages of a stream.
pub struct BinParserSchema {
    inner: BinDecoderSchema,
}

impl BinParserSchema {
    /// The definitions in the order they were read.
    pub closed spec fn defs(&self) -> Seq<Seq<Seq<char>>> {
        self.inner.defs()
    }

    pub fn new() -> (r: Self)
        ensures
            r.defs() == Seq::<Seq<Seq<char>>>::empty(),
    {
        BinParserSchema { inner: BinDecoderSchema::new() }
    }
}

/// The parser: the input, the position reached and the shared schema.
pub struct SimpleBinParser<'de, 's> {
    inner: SimpleBinDecoder<'de, 's>,
}

/// What the next value is read from: the input, or a name already known.
pub enum BinAnyParser {
    U32(u32),
    Str(String),
    Read,
}

/// The handle of a sequence: the number of items left.
pub struct BinSeqParser {
    inner: BinSeqDecoder,
}

/// The handle of a struct's fields or of a map's entries.
pub struct BinMapParser {
    inner: BinMapDecoder,
}

/// The key of a map entry: a field name already known, or one to read.
pub enum BinKeyParser {
    Foreign(String),
    Native(usize),
    Read,
}

/// The handle of an enum value: its variant.
pub struct BinDiscriminantParser {
    inner: BinDiscriminantDecoder,
}

/// What one parsing step found.
pub enum BinParserView {
    Primitive(Primitive),
    String(String),
    Bytes(Vec<u8>),
    Absent,
    Present(()),
    Sequence(BinSeqParser),
    Mapping(BinMapParser),
    Enum(BinDiscriminantParser),
}

impl BinSeqParser {
    pub closed spec fn remaining(&self) -> usize {
        self.inner.remaining()
    }
}

impl BinMapParser {
    pub closed spec fn keys_left(&self) -> Option<Seq<KeyName>> {
        self.inner.keys_left()
    }

    pub closed spec fn entries_left(&self) -> usize {
        self.inner.entries_left()
    }
}

impl BinDiscriminantParser {
    pub closed spec fn variant(&self) -> KeyName {
        self.inner.variant()
    }
}

/// The values that a view of the parser holds.
pub open spec fn parser_view_value(v: BinParserView) -> BinValue {
    match v {
        BinParserView::Primitive(p) => BinValue::Primitive(p),
        BinParserView::String(s) => BinValue::Text(s@),
        BinParserView::Bytes(b) => BinValue::ByteString(b@),
        BinParserView::Absent => BinValue::Absent,
        BinParserView::Present(_) => BinValue::Present,
        BinParserView::Sequence(s) => BinValue::Items(s.remaining()),
        BinParserView::Mapping(m) => match m.keys_left() {
            Some(k) => BinValue::Fields(k),
            None => BinValue::Entries(m.entries_left()),
        },
        BinParserView::Enum(d) => BinValue::Variant(d.variant()),
    }
}

/// The name of the kind of value that a parser view holds.
pub open spec fn parser_view_kind(v: BinParserView) -> &'static str {
    match v {
        BinParserView::Primitive(p) => kind_name(type_of(p)),
        BinParserView::String(_) => "string",
        BinParserView::Bytes(_) => "bytes",
        BinParserView::Absent => "none",
        BinParserView::Present(_) => "some",
        BinParserView::Sequence(_) => "seq",
        BinParserView::Mapping(_) => "map",
        BinParserView::Enum(_) => "enum",
    }
}

impl BinParserView {
    /// The error reported when this view is found where `expected` was wanted.
    pub fn mismatch(&self, expected: &'static str) -> (r: Error)
        ensures
            r == Error::TypeMismatch(TypeMismatch { found: parser_view_kind(*self), expected }),
    {
        let found = match self {
            BinParserView::Primitive(p) => p.kind(),
            BinParserView::String(_) => "string",
            BinParserView::Bytes(_) => "bytes",
            BinParserView::Absent => "none",
            BinParserView::Present(_) => "some",
            BinParserView::Sequence(_) => "seq",
            BinParserView::Mapping(_) => "map",
            BinParserView::Enum(_) => "enum",
        };
        Error::TypeMismatch(TypeMismatch { found, expected })
    }

    /// The sequence handle of this view, or a type mismatch.
    pub fn try_into_seq(self) -> (r: Result<BinSeqParser, Error>)
        ensures
            match self {
                BinParserView::Sequence(x) => r == Ok::<BinSeqParser, Error>(x),
                _ => r == Err::<BinSeqParser, Error>(
                    Error::TypeMismatch(TypeMismatch { found: parser_view_kind(self), expected: "seq" }),
                ),
            },
    {
        match self {
            BinParserView::Sequence(x) => Ok(x),
            _ => Err(self.mismatch("seq")),
        }
    }

    /// The map handle of this view, or a type mismatch.
    pub fn try_into_map(self) -> (r: Result<BinMapParser, Error>)
        ensures
            match self {
                BinParserView::Mapping(x) => r == Ok::<BinMapParser, Error>(x),
                _ => r == Err::<BinMapParser, Error>(
                    Error::TypeMismatch(TypeMismatch { found: parser_view_kind(self), expected: "map" }),
                ),
            },
    {
        match self {
            BinParserView::Mapping(x) => Ok(x),
            _ => Err(self.mismatch("map")),
        }
    }

    /// The string of this view, or a type mismatch.
    pub fn try_into_string(self) -> (r: Result<String, Error>)
        ensures
            match self {
                BinParserView::String(x) => r == Ok::<String, Error>(x),
                _ => r == Err::<String, Error>(
                    Error::TypeMismatch(TypeMismatch { found: parser_view_kind(self), expected: "string" }),
                ),
            },
    {
        match self {
            BinParserView::String(x) => Ok(x),
            _ => Err(self.mismatch("string")),
        }
    }
}

/// The decoding hint with the same meaning as a parse hint.
pub open spec fn decode_hint_of(hint: ParseHint) -> DecodeHint {
    match hint {
        ParseHint::Any => DecodeHint::Any,
        ParseHint::Primitive(t) => DecodeHint::Primitive(t),
        ParseHint::String => DecodeHint::String,
        ParseHint::Bytes => DecodeHint::Bytes,
        ParseHint::Option => DecodeHint::Option,
        ParseHint::UnitStruct { name } => DecodeHint::UnitStruct { name },
        ParseHint::Sequence => DecodeHint::Sequence,
        ParseHint::Tuple { len } => DecodeHint::Tuple { len },
        ParseHint::TupleStruct { name, len } => DecodeHint::TupleStruct { name, len },
        ParseHint::Mapping => DecodeHint::Mapping,
        ParseHint::Struct { name, fields } => DecodeHint::Struct { name, fields },
        ParseHint::Enum { name, variants } => DecodeHint::Enum { name, variants },
        ParseHint::Identifier => DecodeHint::Identifier,
    }
}

/// The parser's error for an error of the format's reading.
pub open spec fn parser_error(e: Error) -> Error {
    match e {
        Error::BinDecoder(BinDecoderError::Eof) => Error::BinParser(BinParserError::Eof),
        Error::BinDecoder(BinDecoderError::BadTag(_)) => Error::BinParser(BinParserError::BadTag),
        Error::BinDecoder(BinDecoderError::NoSuchEnumDef) => Error::BinParser(BinParserError::NoSuchEnumDef),
        Error::BinDecoder(BinDecoderError::NoSuchVariant(_)) => Error::BinParser(BinParserError::NoSuchVariant),
        Error::BinDecoder(BinDecoderError::TrailingData) => Error::BinParser(BinParserError::TooMuchPadding),
        Error::BinDecoder(BinDecoderError::NonZeroPadding) => Error::BinParser(BinParserError::NonZeroPadding),
        _ => e,
    }
}

fn to_decode_hint(hint: ParseHint) -> (r: DecodeHint)
    ensures
        r == decode_hint_of(hint),
{
    match hint {
        ParseHint::Any => DecodeHint::Any,
        ParseHint::Primitive(t) => DecodeHint::Primitive(t),
        ParseHint::String => DecodeHint::String,
        ParseHint::Bytes => DecodeHint::Bytes,
        ParseHint::Option => DecodeHint::Option,
        ParseHint::UnitStruct { name } => DecodeHint::UnitStruct { name },
        ParseHint::Sequence => DecodeHint::Sequence,
        ParseHint::Tuple { len } => DecodeHint::Tuple { len },
        ParseHint::TupleStruct { name, len } => DecodeHint::TupleStruct { name, len },
        ParseHint::Mapping => DecodeHint::Mapping,
        ParseHint::Struct { name, fields } => DecodeHint::Struct { name, fields },
        ParseHint::Enum { name, variants } => DecodeHint::Enum { name, variants },
        ParseHint::Identifier => DecodeHint::Identifier,
    }
}

fn to_parser_error(e: Error) -> (r: Error)
    ensures
        r == parser_error(e),
{
    match e {
        Error::BinDecoder(BinDecoderError::Eof) => Error::BinParser(BinParserError::Eof),
        Error::BinDecoder(BinDecoderError::BadTag(_)) => Error::BinParser(BinParserError::BadTag),
        Error::BinDecoder(BinDecoderError::NoSuchEnumDef) => Error::BinParser(BinParserError::NoSuchEnumDef),
        Error::BinDecoder(BinDecoderError::NoSuchVariant(_)) => Error::BinParser(BinParserError::NoSuchVariant),
        Error::BinDecoder(BinDecoderError::TrailingData) => Error::BinParser(BinParserError::TooMuchPadding),
        Error::BinDecoder(BinDecoderError::NonZeroPadding) => Error::BinParser(BinParserError::NonZeroPadding),
        _ => e,
    }
}

fn to_parser_view<'de, 's>(v: SimpleDecoderView<SimpleBinDecoder<'de, 's>>) -> (r: BinParserView)
    ensures
        parser_view_value(r) == view_value(v),
{
    match v {
        SimpleDecoderView::Primitive(p) => BinParserView::Primitive(p),
        SimpleDecoderView::String(s) => BinParserView::String(s),
        SimpleDecoderView::Bytes(b) => BinParserView::Bytes(b),
        SimpleDecoderView::OptionNone => BinParserView::Absent,
        SimpleDecoderView::OptionSome(x) => BinParserView::Present(x),
        SimpleDecoderView::Sequence(s) => BinParserView::Sequence(BinSeqParser { inner: s }),
        SimpleDecoderView::Mapping(m) => BinParserView::Mapping(BinMapParser { inner: m }),
        SimpleDecoderView::Enum(d) => BinParserView::Enum(BinDiscriminantParser { inner: d }),
    }
}

/// The outcome of one reading step, as the parser reports it.
pub open spec fn parse_outcome(r: Result<BinParserView, Error>, spec: Result<(BinValue, int, Seq<Seq<Seq<char>>>), Error>) -> bool {
    match spec {
        Ok((value, q, defs)) => r matches Ok(v) && parser_view_value(v) == value,
        Err(e) => r == Err::<BinParserView, Error>(parser_error(e)),
    }
}

/// One parsing step of `p0` on the handle `any` with the hint `hint`, giving
/// `r` and the parser `p1`: a name already known is given back as it is and
/// nothing moves; otherwise one value is read, after the enum definitions
/// met first (a failure keeps the definitions read before it).
pub open spec fn bin_parse_step<'de, 's>(
    p0: SimpleBinParser<'de, 's>,
    any: BinAnyParser,
    hint: ParseHint,
    r: Result<BinParserView, Error>,
    p1: SimpleBinParser<'de, 's>,
) -> bool {
    &&& p1.data() == p0.data()
    &&& match any {
        BinAnyParser::U32(x) => r matches Ok(v) && parser_view_value(v) == BinValue::Primitive(Primitive::U32(x)) && p1 == p0,
        BinAnyParser::Str(s) => r matches Ok(v) && parser_view_value(v) == BinValue::Text(s@) && p1 == p0,
        BinAnyParser::Read => {
            let spec = spec_bin_decode(p0.data(), p0.position(), p0.defs(), decode_hint_of(hint));
            &&& parse_outcome(r, spec)
            &&& spec matches Ok((value, q, defs)) ==> p1.position() == q && p1.defs() == defs
            &&& spec is Err ==> p1.defs() == bin_defs_read(p0.data(), p0.position(), p0.defs())
        },
    }
}

/// Reading the payload of an enum variant of kind `hint` from `p0`, giving
/// `r` and the parser `p1`.
pub open spec fn bin_variant_step<'de, 's>(
    p0: SimpleBinParser<'de, 's>,
    hint: DecodeVariantHint,
    r: Result<(BinParserView, ()), Error>,
    p1: SimpleBinParser<'de, 's>,
) -> bool {
    &&& p1.data() == p0.data()
    &&& match spec_bin_decode(p0.data(), p0.position(), p0.defs(), variant_hint(hint)) {
        Ok((value, q, defs)) => r matches Ok((v, ())) && parser_view_value(v) == value && p1.position() == q
            && p1.defs() == defs,
        Err(e) => r == Err::<(BinParserView, ()), Error>(parser_error(e)),
    }
}

/// What the key handle `key` of an entry gives: a known name as it is, a
/// known index as a `u32` (or `IntConversion` where it does not fit), or a
/// key to read.
pub open spec fn bin_entry_key(key: BinKeyParser) -> Result<(BinAnyParser, ()), Error> {
    match key {
        BinKeyParser::Foreign(s) => Ok((BinAnyParser::Str(s), ())),
        BinKeyParser::Native(n) => if n <= u32::MAX {
            Ok((BinAnyParser::U32(n as u32), ()))
        } else {
            Err(Error::IntConversion)
        },
        BinKeyParser::Read => Ok((BinAnyParser::Read, ())),
    }
}

/// Whether `r` is what the enum handle `e` gives for its discriminant: the
/// variant's index in the target type as a `u32` (or `IntConversion` where
/// it does not fit), or the variant's name.
pub open spec fn discriminant_given(e: BinDiscriminantParser, r: Result<(BinAnyParser, ()), Error>) -> bool {
    match e.variant() {
        KeyName::Native(n) => if n <= u32::MAX {
            r == Ok::<(BinAnyParser, ()), Error>((BinAnyParser::U32(n as u32), ()))
        } else {
            r == Err::<(BinAnyParser, ()), Error>(Error::IntConversion)
        },
        KeyName::Foreign(name) => r matches Ok((BinAnyParser::Str(s), ())) && s@ == name,
    }
}

impl<'de, 's> SimpleBinParser<'de, 's> {
    /// The whole input.
    pub closed spec fn data(&self) -> Seq<u8> {
        self.inner.data()
    }

    /// The position reached in the input.
    pub closed spec fn position(&self) -> int {
        self.inner.position()
    }

    /// The enum definitions of the shared schema.
    pub closed spec fn defs(&self) -> Seq<Seq<Seq<char>>> {
        self.inner.defs()
    }

    /// The input not yet read.
    pub closed spec fn rest(&self) -> Seq<u8> {
        self.inner.rest()
    }

    pub fn new(data: &'de [u8], schema: &'s mut BinParserSchema) -> (r: SimpleBinParser<'de, 's>)
        ensures
            r.data() == data@,
            r.position() == 0,
            r.defs() == old(schema).defs(),
    {
        SimpleBinParser { inner: SimpleBinDecoder::new(data, &mut schema.inner) }
    }

    /// Checks that only the zero padding is left of the input.
    pub fn end(self) -> (r: Result<(), Error>)
        ensures
            r == (if self.rest().len() > VU128_PADDING {
                Err(Error::BinParser(BinParserError::TooMuchPadding))
            } else if exists|i: int| 0 <= i < self.rest().len() && self.rest()[i] != 0u8 {
                Err(Error::BinParser(BinParserError::NonZeroPadding))
            } else {
                Ok(())
            }),
    {
        match self.inner.end() {
            Ok(()) => Ok(()),
            Err(e) => Err(to_parser_error(e)),
        }
    }

    /// One parsing step: a name already known is given back as it is;
    /// otherwise the enum definitions met first are read into the schema and
    /// then one value is read.
    pub fn parse(&mut self, any: BinAnyParser, hint: ParseHint) -> (r: Result<BinParserView, Error>)
        ensures
            bin_parse_step(*old(self), any, hint, r, *final(self)),
    {
        let any = match any {
            BinAnyParser::U32(x) => BinAnyDecoder::U32(x),
            BinAnyParser::Str(s) => BinAnyDecoder::Str(s),
            BinAnyParser::Read => BinAnyDecoder::Read,
        };
        match self.inner.decode(any, to_decode_hint(hint)) {
            Ok(v) => Ok(to_parser_view(v)),
            Err(e) => Err(to_parser_error(e)),
        }
    }

    pub fn is_human_readable(&self) -> (r: bool)
        ensures
            !r,
    {
        false
    }

    /// The next item of a sequence, while there is one.
    pub fn parse_seq_next(&mut self, seq: &mut BinSeqParser) -> (r: Result<Option<BinAnyParser>, Error>)
        ensures
            *final(self) == *old(self),
            old(seq).remaining() > 0 ==> (r matches Ok(Some(BinAnyParser::Read))
                && final(seq).remaining() == old(seq).remaining() - 1),
            old(seq).remaining() == 0 ==> (r matches Ok(None) && final(seq).remaining() == 0),
    {
        match self.inner.decode_seq_next(&mut seq.inner) {
            Ok(Some(_)) => Ok(Some(BinAnyParser::Read)),
            Ok(None) => Ok(None),
            Err(e) => Err(e),
        }
    }

    /// The next key of a struct or map, while there is one.
    pub fn parse_map_next(&mut self, map: &mut BinMapParser) -> (r: Result<Option<BinKeyParser>, Error>)
        ensures
            *final(self) == *old(self),
            match old(map).keys_left() {
                Some(k) => if k.len() > 0 {
                    r matches Ok(Some(key)) && parser_key_known(key) == Some(k[0])
                        && final(map).keys_left() == Some(k.drop_first())
                } else {
                    r matches Ok(None) && final(map).keys_left() == Some(k)
                },
                None => if old(map).entries_left() > 0 {
                    r matches Ok(Some(BinKeyParser::Read)) && final(map).keys_left() is None
                        && final(map).entries_left() == old(map).entries_left() - 1
                } else {
                    r matches Ok(None) && final(map).keys_left() is None && final(map).entries_left() == 0
                },
            },
    {
        match self.inner.decode_map_next(&mut map.inner) {
            Ok(Some(BinKeyDecoder::Foreign(s))) => Ok(Some(BinKeyParser::Foreign(s))),
            Ok(Some(BinKeyDecoder::Native(n))) => Ok(Some(BinKeyParser::Native(n))),
            Ok(Some(BinKeyDecoder::Read)) => Ok(Some(BinKeyParser::Read)),
            Ok(None) => Ok(None),
            Err(e) => Err(e),
        }
    }

    /// The key of an entry: a known name, or one to read.
    pub fn parse_entry_key(&mut self, key: BinKeyParser) -> (r: Result<(BinAnyParser, ()), Error>)
        ensures
            *final(self) == *old(self),
            r == bin_entry_key(key),
    {
        match key {
            BinKeyParser::Foreign(x) => Ok((BinAnyParser::Str(x), ())),
            BinKeyParser::Native(x) => if x <= u32::MAX as usize {
                Ok((BinAnyParser::U32(x as u32), ()))
            } else {
                Err(Error::IntConversion)
            },
            BinKeyParser::Read => Ok((BinAnyParser::Read, ())),
        }
    }

    /// The value of an entry is read from the input.
    pub fn parse_entry_value(&mut self, value: ()) -> (r: Result<BinAnyParser, Error>)
        ensures
            *final(self) == *old(self),
            r matches Ok(BinAnyParser::Read),
    {
        Ok(BinAnyParser::Read)
    }

    /// The variant of an enum value, given out as its index in the target
    /// type or as its name.
    pub fn parse_enum_discriminant(&mut self, e: BinDiscriminantParser) -> (r: Result<(BinAnyParser, ()), Error>)
        ensures
            *final(self) == *old(self),
            discriminant_given(e, r),
    {
        match self.inner.decode_enum_discriminant(e.inner) {
            Ok((BinAnyDecoder::U32(x), ())) => Ok((BinAnyParser::U32(x), ())),
            Ok((BinAnyDecoder::Str(s), ())) => Ok((BinAnyParser::Str(s), ())),
            Ok((BinAnyDecoder::Read, ())) => Ok((BinAnyParser::Read, ())),
            Err(e) => Err(e),
        }
    }

    /// The payload of a variant, read with the hint for its kind.
    pub fn parse_enum_variant(&mut self, e: (), hint: DecodeVariantHint) -> (r: Result<(BinParserView, ()), Error>)
        ensures
            bin_variant_step(*old(self), hint, r, *final(self)),
    {
        match self.inner.decode_enum_variant((), hint) {
            Ok((v, ())) => Ok((to_parser_view(v), ())),
            Err(e) => Err(to_parser_error(e)),
        }
    }

    pub fn parse_enum_end(&mut self, e: ()) -> (r: Result<(), Error>)
        ensures
            r is Ok,
            *final(self) == *old(self),
    {
        Ok(())
    }

    /// The value inside a present option is read from the input.
    pub fn parse_some_inner(&mut self, e: ()) -> (r: Result<(BinAnyParser, ()), Error>)
        ensures
            *final(self) == *old(self),
            r matches Ok((BinAnyParser::Read, ())),
    {
        Ok((BinAnyParser::Read, ()))
    }

    pub fn parse_some_end(&mut self, p: ()) -> (r: Result<(), Error>)
        ensures
            r is Ok,
            *final(self) == *old(self),
    {
        Ok(())
    }
}

/// The name that a key handle of the parser already holds, if it holds one.
pub open spec fn parser_key_known(k: BinKeyParser) -> Option<KeyName> {
    match k {
        BinKeyParser::Foreign(s) => Some(KeyName::Foreign(s@)),
        BinKeyParser::Native(n) => Some(KeyName::Native(n)),
        BinKeyParser::Read => None,
    }
}

/// Parses one message of the binary format: the parser, the nesting budget
/// of the message's value, and the state that the parser's handles share.
pub struct BinParserBuilder<'de, 's> {
    inner: SimpleBinParser<'de, 's>,
    depth_budget: usize,
    poison: PoisonState,
}

impl<'de, 's> BinParserBuilder<'de, 's> {
    /// The parser of the message.
    pub closed spec fn parser(&self) -> SimpleBinParser<'de, 's> {
        self.inner
    }

    /// The nesting budget of the message's value.
    pub closed spec fn depth_budget(&self) -> usize {
        self.depth_budget
    }

    /// The state that the parser's handles share.
    pub closed spec fn poison(&self) -> PoisonState {
        self.poison
    }

    pub fn new(input: &'de [u8], schema: &'s mut BinParserSchema) -> (r: Self)
        ensures
            r.parser().data() == input@,
            r.parser().position() == 0,
            r.parser().defs() == old(schema).defs(),
            r.depth_budget() == DEFAULT_DEPTH_BUDGET,
            r.poison().status() == Ok::<(), PoisonError>(()),
    {
        BinParserBuilder { inner: SimpleBinParser::new(input, schema), depth_budget: DEFAULT_DEPTH_BUDGET, poison: PoisonState::new() }
    }

    /// What parsing the message's value starts from: the parser, the budget
    /// of the value, and the handle of the value, guarded on the state that
    /// the handles of the message share.
    pub fn build(&mut self) -> (r: (&mut SimpleBinParser<'de, 's>, usize, PoisonAnyParser<'_>))
        ensures
            *r.0 == old(self).parser(),
            r.1 == old(self).depth_budget(),
            r.2.inner() is Read,
            guards(r.2.guard(), old(self).poison(), "Did not call AnyParser::parse"),
            final(self).parser() == *final(r.0),
            r.2.guard().state matches Some(s) && final(self).poison() == *final(s),
            final(self).depth_budget() == old(self).depth_budget(),
    {
        let BinParserBuilder { inner, depth_budget, poison } = self;
        (inner, *depth_budget, PoisonAnyParser::new(poison, BinAnyParser::Read))
    }

    /// Finishes the message: no handle may have been given up, and only the
    /// zero padding may be left of the input.
    pub fn end(self) -> (r: Result<(), Error>)
        ensures
            self.poison().status() matches Err(e) ==> r == Err::<(), Error>(Error::ParsePoison(e)),
            self.poison().status() is Ok ==> r == (if self.parser().rest().len() > VU128_PADDING {
                Err(Error::BinParser(BinParserError::TooMuchPadding))
            } else if exists|i: int| 0 <= i < self.parser().rest().len() && self.parser().rest()[i] != 0u8 {
                Err(Error::BinParser(BinParserError::NonZeroPadding))
            } else {
                Ok(())
            }),
    {
        match self.poison.check() {
            Ok(()) => {},
            Err(e) => return Err(Error::ParsePoison(e)),
        }
        self.inner.end()
    }
}

} // verus!
