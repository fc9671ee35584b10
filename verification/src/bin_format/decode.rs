//! The decoder of the self-describing binary format.
use vstd::prelude::*;
use crate::bin_format::{TypeTag, lemma_tag_round_trip, prim_tag, spec_tag_from_u8, tag_byte};
use crate::decode::{DecodeHint, DecodeVariantHint, SimpleDecoderView, SpecDecoder};
use crate::error::{BinDecoderError, Error, ReadError};
use crate::payload::{lemma_read_payload_advances, read_payload, spec_read_payload};
use crate::primitive::{Primitive, PrimitiveType};
use crate::text::{first_index_of, lemma_first_index_of, names_view, spec_utf8_string, str_position, utf8_string};
use crate::vu128::{VU128_PADDING, read_u64, spec_read_u64};

verus! {

// ---------------------------------------------------------------------------
// The format, read at a position of the input.
// ---------------------------------------------------------------------------

/// The error of a failed low-level read.
pub open spec fn read_error(e: ReadError) -> Error {
    match e {
        ReadError::Eof => Error::BinDecoder(BinDecoderError::Eof),
        ReadError::IntConversion => Error::IntConversion,
        ReadError::InvalidChar => Error::InvalidChar,
    }
}

/// A length or an index: a `u64` that must fit a `usize`.
pub open spec fn spec_read_usize(data: Seq<u8>, pos: int) -> Result<(usize, int), Error> {
    match spec_read_u64(data, pos) {
        None => Err(Error::BinDecoder(BinDecoderError::Eof)),
        Some((v, p)) => if v <= usize::MAX {
            Ok((v as usize, p))
        } else {
            Err(Error::IntConversion)
        },
    }
}

/// The next `count` bytes.
pub open spec fn spec_read_count(data: Seq<u8>, pos: int, count: int) -> Result<(Seq<u8>, int), Error> {
    if 0 <= pos && pos + count <= data.len() {
        Ok((data.subrange(pos, pos + count), pos + count))
    } else {
        Err(Error::BinDecoder(BinDecoderError::Eof))
    }
}

/// A byte string: its length, then its bytes.
pub open spec fn spec_read_bytes(data: Seq<u8>, pos: int) -> Result<(Seq<u8>, int), Error> {
    match spec_read_usize(data, pos) {
        Err(e) => Err(e),
        Ok((n, p)) => spec_read_count(data, p, n as int),
    }
}

/// A text: a byte string that must be UTF-8.
pub open spec fn spec_read_text(data: Seq<u8>, pos: int) -> Result<(Seq<char>, int), Error> {
    match spec_read_bytes(data, pos) {
        Err(e) => Err(e),
        Ok((b, p)) => match spec_utf8_string(b) {
            Some(s) => Ok((s, p)),
            None => Err(Error::InvalidUtf8),
        },
    }
}

/// `count` texts, one after the other.
pub open spec fn spec_read_names(data: Seq<u8>, pos: int, count: nat) -> Result<
    (Seq<Seq<char>>, int),
    Error,
>
    decreases count,
{
    if count == 0 {
        Ok((Seq::empty(), pos))
    } else {
        match spec_read_names(data, pos, (count - 1) as nat) {
            Err(e) => Err(e),
            Ok((names, p)) => match spec_read_text(data, p) {
                Err(e) => Err(e),
                Ok((s, q)) => Ok((names.push(s), q)),
            },
        }
    }
}

/// The body of an enum definition (after its tag): a count and the names.
pub open spec fn spec_read_enum_def(data: Seq<u8>, pos: int) -> Result<(Seq<Seq<char>>, int), Error> {
    match spec_read_usize(data, pos) {
        Err(e) => Err(e),
        Ok((n, p)) => spec_read_names(data, p, n as nat),
    }
}

/// Reading a length never goes backwards.
pub proof fn lemma_read_usize_advances(data: Seq<u8>, pos: int)
    ensures
        spec_read_usize(data, pos) matches Ok((_, p)) ==> pos <= p <= data.len(),
{
}

/// Reading a text never goes backwards.
pub proof fn lemma_read_text_advances(data: Seq<u8>, pos: int)
    ensures
        spec_read_text(data, pos) matches Ok((_, p)) ==> pos <= p <= data.len(),
{
}

/// Reading names never goes backwards.
pub proof fn lemma_read_names_advances(data: Seq<u8>, pos: int, count: nat)
    ensures
        spec_read_names(data, pos, count) matches Ok((names, p)) ==> pos <= p && names.len() == count
            && (count > 0 ==> p <= data.len()),
    decreases count,
{
    if count > 0 {
        lemma_read_names_advances(data, pos, (count - 1) as nat);
        match spec_read_names(data, pos, (count - 1) as nat) {
            Ok((_, p)) => lemma_read_text_advances(data, p),
            Err(_) => {},
        }
    }
}

/// A value read from the input ends after the position it starts at, and
/// within the input.
pub proof fn lemma_bin_decode_advances(data: Seq<u8>, pos: int, defs: Seq<Seq<Seq<char>>>, hint: DecodeHint)
    ensures
        spec_bin_decode(data, pos, defs, hint) matches Ok((_, q, _)) ==> pos < q <= data.len(),
    decreases data.len() - pos,
{
    if 0 <= pos < data.len() {
        let p = pos + 1;
        lemma_read_usize_advances(data, p);
        lemma_read_text_advances(data, p);
        match spec_read_usize(data, p) {
            Ok((_, q)) => lemma_read_usize_advances(data, q),
            Err(_) => {},
        }
        match spec_tag_from_u8(data[pos]) {
            Some(tag) => match tag_payload_type(tag) {
                Some(t) => lemma_read_payload_advances(data, p, t),
                None => {
                    lemma_read_enum_def_advances(data, p);
                    match spec_read_enum_def(data, p) {
                        Ok((def, q)) => lemma_bin_decode_advances(data, q, defs.push(def), hint),
                        Err(_) => {},
                    }
                },
            },
            None => {},
        }
    }
}

/// Once reading names fails, reading more of them fails the same way.
pub proof fn lemma_read_names_fails(data: Seq<u8>, pos: int, k: nat, m: nat)
    requires
        k <= m,
        spec_read_names(data, pos, k) is Err,
    ensures
        spec_read_names(data, pos, m) == spec_read_names(data, pos, k),
    decreases m - k,
{
    if k < m {
        lemma_read_names_fails(data, pos, k, (m - 1) as nat);
    }
}

/// Reading an enum definition never goes backwards.
pub proof fn lemma_read_enum_def_advances(data: Seq<u8>, pos: int)
    ensures
        spec_read_enum_def(data, pos) matches Ok((_, p)) ==> pos <= p <= data.len(),
{
    lemma_read_usize_advances(data, pos);
    match spec_read_usize(data, pos) {
        Ok((n, p)) => lemma_read_names_advances(data, p, n as nat),
        Err(_) => {},
    }
}

/// Decoding an enum header: a variant index into a definition that was read,
/// seen through the target type's variant names.
pub proof fn lemma_decode_enum_header(
    data: Seq<u8>,
    pos: int,
    defs: Seq<Seq<Seq<char>>>,
    hint: DecodeHint,
    def: usize,
    index: usize,
    p: int,
    q: int,
)
    requires
        0 <= pos < data.len(),
        data[pos] == tag_byte(TypeTag::Enum),
        spec_read_usize(data, pos + 1) == Ok::<(usize, int), Error>((def, p)),
        spec_read_usize(data, p) == Ok::<(usize, int), Error>((index, q)),
        def < defs.len(),
        hint_variants(hint) is Some,
        index < defs[def as int].len(),
    ensures
        spec_bin_decode(data, pos, defs, hint) == Ok::<(BinValue, int, Seq<Seq<Seq<char>>>), Error>(
            (BinValue::Variant(key_names(defs[def as int], hint_variants(hint))[index as int]), q, defs),
        ),
{
    lemma_tag_round_trip(TypeTag::Enum);
}

/// A message is what was written followed by the padding (zero bytes, as
/// many as the longest `vu128` value).  Once a decoder has read what was
/// written, what is left of the message is the padding, which its end check
/// accepts: no more bytes than the padding, all of them zero.
pub proof fn law_padding_is_accepted(written: Seq<u8>)
    ensures
        ({
            let message = written + Seq::new(VU128_PADDING as nat, |i: int| 0u8);
            let rest = message.subrange(written.len() as int, message.len() as int);
            &&& !(rest.len() > VU128_PADDING)
            &&& !(exists|i: int| 0 <= i < rest.len() && rest[i] != 0u8)
        }),
{
    let message = written + Seq::new(VU128_PADDING as nat, |i: int| 0u8);
    let rest = message.subrange(written.len() as int, message.len() as int);
    assert(rest =~= Seq::new(VU128_PADDING as nat, |i: int| 0u8));
}

/// A name of a field or variant as the decoding side sees it: the index of
/// the target type's name with the same text, or the text itself when the
/// target type has no such name.
pub enum KeyName {
    Native(usize),
    Foreign(Seq<char>),
}

/// How a name written by the encoder is seen by a target type with names
/// `native`.
pub open spec fn key_name(native: Seq<Seq<char>>, name: Seq<char>) -> KeyName {
    match first_index_of(native, name) {
        Some(i) => KeyName::Native(i as usize),
        None => KeyName::Foreign(name),
    }
}

/// The names of a definition as seen by a target type.  Without the target
/// type's names (no matching hint) there are no keys at all.
pub open spec fn key_names(foreign: Seq<Seq<char>>, native: Option<Seq<Seq<char>>>) -> Seq<KeyName> {
    match native {
        None => Seq::empty(),
        Some(n) => Seq::new(foreign.len(), |i: int| key_name(n, foreign[i])),
    }
}

/// Names are matched by their text: a name that the encoder wrote and the
/// target type also has is seen as the target's (first) index of that name,
/// and a name that the target type does not have is seen as the name itself.
/// So fields and variants are found again when the target type orders them
/// differently.
pub proof fn law_names_matched_by_text(foreign: Seq<Seq<char>>, native: Seq<Seq<char>>, i: int)
    requires
        0 <= i < foreign.len(),
        native.len() <= usize::MAX,
    ensures
        key_names(foreign, Some(native)).len() == foreign.len(),
        match key_names(foreign, Some(native))[i] {
            KeyName::Native(j) => j < native.len() && native[j as int] == foreign[i] && forall|k: int|
                0 <= k < j ==> native[k] != foreign[i],
            KeyName::Foreign(name) => name == foreign[i] && forall|k: int|
                0 <= k < native.len() ==> native[k] != foreign[i],
        },
{
    lemma_first_index_of(native, foreign[i]);
}

/// The field names that a hint gives, if it is a struct hint.
pub open spec fn hint_fields(hint: DecodeHint) -> Option<Seq<Seq<char>>> {
    match hint {
        DecodeHint::Struct { name, fields } => Some(names_view(fields@)),
        _ => None,
    }
}

/// The variant names that a hint gives, if it is an enum hint.
pub open spec fn hint_variants(hint: DecodeHint) -> Option<Seq<Seq<char>>> {
    match hint {
        DecodeHint::Enum { name, variants } => Some(names_view(variants@)),
        _ => None,
    }
}

/// What one decoding step finds, as values.
pub enum BinValue {
    Primitive(Primitive),
    Text(Seq<char>),
    ByteString(Seq<u8>),
    Absent,
    Present,
    Items(usize),
    Fields(Seq<KeyName>),
    Entries(usize),
    Variant(KeyName),
}

/// A primitive payload after its tag, read as kind `t`.
pub open spec fn spec_read_prim(data: Seq<u8>, pos: int, t: PrimitiveType) -> Result<(BinValue, int), Error> {
    match spec_read_payload(data, pos, t) {
        Ok((p, q)) => Ok((BinValue::Primitive(p), q)),
        Err(e) => Err(read_error(e)),
    }
}

/// The kind of payload that follows a primitive tag.  A 64-bit float tag is
/// followed by the payload of a 32-bit float: the reader takes what it finds
/// that way.
pub open spec fn tag_payload_type(tag: TypeTag) -> Option<PrimitiveType> {
    match tag {
        TypeTag::Bool => Some(PrimitiveType::Bool),
        TypeTag::I8 => Some(PrimitiveType::I8),
        TypeTag::I16 => Some(PrimitiveType::I16),
        TypeTag::I32 => Some(PrimitiveType::I32),
        TypeTag::I64 => Some(PrimitiveType::I64),
        TypeTag::I128 => Some(PrimitiveType::I128),
        TypeTag::U8 => Some(PrimitiveType::U8),
        TypeTag::U16 => Some(PrimitiveType::U16),
        TypeTag::U32 => Some(PrimitiveType::U32),
        TypeTag::U64 => Some(PrimitiveType::U64),
        TypeTag::U128 => Some(PrimitiveType::U128),
        TypeTag::F32 => Some(PrimitiveType::F32),
        TypeTag::F64 => Some(PrimitiveType::F32),
        TypeTag::Char => Some(PrimitiveType::Char),
        _ => None,
    }
}

/// One decoding step at `pos`, with the enum definitions `defs` read so far:
/// enum definitions met first are read and added, then one value is read.
/// The result is the value, the position after it and the definitions.
pub open spec fn spec_bin_decode(
    data: Seq<u8>,
    pos: int,
    defs: Seq<Seq<Seq<char>>>,
    hint: DecodeHint,
) -> Result<(BinValue, int, Seq<Seq<Seq<char>>>), Error>
    decreases data.len() - pos,
{
    if pos < 0 || pos >= data.len() {
        Err(Error::BinDecoder(BinDecoderError::Eof))
    } else {
        let b = data[pos];
        let p = pos + 1;
        match spec_tag_from_u8(b) {
            None => Err(Error::BinDecoder(BinDecoderError::BadTag(b))),
            Some(tag) => match tag_payload_type(tag) {
                Some(t) => match spec_read_prim(data, p, t) {
                    Ok((v, q)) => Ok((v, q, defs)),
                    Err(e) => Err(e),
                },
                None => match tag {
                    TypeTag::Unit | TypeTag::UnitStruct => Ok((BinValue::Primitive(Primitive::Unit), p, defs)),
                    TypeTag::OptionNone => Ok((BinValue::Absent, p, defs)),
                    TypeTag::OptionSome => Ok((BinValue::Present, p, defs)),
                    TypeTag::String => match spec_read_text(data, p) {
                        Ok((s, q)) => Ok((BinValue::Text(s), q, defs)),
                        Err(e) => Err(e),
                    },
                    TypeTag::Bytes => match spec_read_bytes(data, p) {
                        Ok((s, q)) => Ok((BinValue::ByteString(s), q, defs)),
                        Err(e) => Err(e),
                    },
                    TypeTag::Tuple | TypeTag::TupleStruct | TypeTag::Sequence => match spec_read_usize(data, p) {
                        Ok((n, q)) => Ok((BinValue::Items(n), q, defs)),
                        Err(e) => Err(e),
                    },
                    TypeTag::Mapping => match spec_read_usize(data, p) {
                        Ok((n, q)) => Ok((BinValue::Entries(n), q, defs)),
                        Err(e) => Err(e),
                    },
                    TypeTag::Struct => match spec_read_usize(data, p) {
                        Err(e) => Err(e),
                        Ok((d, q)) => if d < defs.len() {
                            Ok((BinValue::Fields(key_names(defs[d as int], hint_fields(hint))), q, defs))
                        } else {
                            Err(Error::BinDecoder(BinDecoderError::NoSuchEnumDef))
                        },
                    },
                    TypeTag::Enum => match spec_read_usize(data, p) {
                        Err(e) => Err(e),
                        Ok((d, q)) => if d < defs.len() {
                            match spec_read_usize(data, q) {
                                Err(e) => Err(e),
                                Ok((v, q2)) => {
                                    let keys = key_names(defs[d as int], hint_variants(hint));
                                    if v < keys.len() {
                                        Ok((BinValue::Variant(keys[v as int]), q2, defs))
                                    } else {
                                        Err(Error::BinDecoder(BinDecoderError::NoSuchVariant(v)))
                                    }
                                },
                            }
                        } else {
                            Err(Error::BinDecoder(BinDecoderError::NoSuchEnumDef))
                        },
                    },
                    _ => match spec_read_enum_def(data, p) {
                        Err(e) => Err(e),
                        Ok((def, q)) => {
                            proof {
                                lemma_read_enum_def_advances(data, p);
                            }
                            spec_bin_decode(data, q, defs.push(def), hint)
                        },
                    },
                },
            },
        }
    }
}

/// The definitions known after the enum definitions that stand at `pos`
/// (one after the other) are read: a step that fails leaves the schema with
/// the definitions that were read before the failing part.
pub open spec fn bin_defs_read(data: Seq<u8>, pos: int, defs: Seq<Seq<Seq<char>>>) -> Seq<Seq<Seq<char>>>
    decreases data.len() - pos,
{
    if 0 <= pos < data.len() && spec_tag_from_u8(data[pos]) == Some(TypeTag::EnumDef) {
        match spec_read_enum_def(data, pos + 1) {
            Ok((def, q)) => {
                proof {
                    lemma_read_enum_def_advances(data, pos + 1);
                }
                bin_defs_read(data, q, defs.push(def))
            },
            Err(_) => defs,
        }
    } else {
        defs
    }
}


// ---------------------------------------------------------------------------
// The schema shared by the messages of one stream.
// ---------------------------------------------------------------------------

/// A key of a definition as the target type sees it: the index of its name,
/// or the encoder's name when the target type has none like it.
#[derive(Debug)]
pub enum EnumDefKey {
    Native(usize),
    Foreign(String),
}

impl View for EnumDefKey {
    type V = KeyName;

    open spec fn view(&self) -> KeyName {
        match self {
            EnumDefKey::Native(n) => KeyName::Native(*n),
            EnumDefKey::Foreign(s) => KeyName::Foreign(s@),
        }
    }
}

impl EnumDefKey {
    /// A copy of this key.
    pub fn duplicate(&self) -> (r: EnumDefKey)
        ensures
            r@ == self@,
    {
        match self {
            EnumDefKey::Native(n) => EnumDefKey::Native(*n),
            EnumDefKey::Foreign(s) => EnumDefKey::Foreign(s.clone()),
        }
    }
}

/// The views of a list of keys.
pub open spec fn keys_view(keys: Seq<EnumDefKey>) -> Seq<KeyName> {
    Seq::new(keys.len(), |i: int| keys[i]@)
}

/// An enum definition read from the input: the encoder's names.
pub struct EnumDefForeign {
    fields: Vec<String>,
}

impl EnumDefForeign {
    /// The names of this definition.
    pub closed spec fn names(&self) -> Seq<Seq<char>> {
        Seq::new(self.fields@.len(), |i: int| self.fields@[i]@)
    }

    /// The names of this definition as seen by a target type with names
    /// `native`, or no names at all without one.
    pub fn get_translation(&self, native: Option<&'static [&'static str]>) -> (r: Vec<EnumDefKey>)
        ensures
            keys_view(r@) == key_names(
                self.names(),
                match native {
                    Some(n) => Some(names_view(n@)),
                    None => None,
                },
            ),
    {
        match native {
            None => {
                let r: Vec<EnumDefKey> = Vec::new();
                assert(keys_view(r@) =~= Seq::<KeyName>::empty());
                r
            },
            Some(native) => {
                let ghost nv = names_view(native@);
                let mut keys: Vec<EnumDefKey> = Vec::new();
                let mut i: usize = 0;
                while i < self.fields.len()
                    invariant
                        i <= self.fields@.len(),
                        nv == names_view(native@),
                        keys@.len() == i,
                        forall|j: int| 0 <= j < i ==> #[trigger] keys@[j]@ == key_name(nv, self.names()[j]),
                    decreases self.fields@.len() - i,
                {
                    let foreign = &self.fields[i];
                    let key = match str_position(native, foreign.as_str()) {
                        Some(n) => EnumDefKey::Native(n),
                        None => EnumDefKey::Foreign(foreign.clone()),
                    };
                    keys.push(key);
                    i = i + 1;
                }
                assert(keys_view(keys@) =~= key_names(self.names(), Some(nv)));
                keys
            },
        }
    }
}

/// The enum definitions read so far, kept across the messages of a stream
/// because a message refers to definitions that earlier messages wrote.
pub struct BinDecoderSchema {
    enum_defs: Vec<EnumDefForeign>,
}

impl BinDecoderSchema {
    /// The definitions in the order they were read.
    pub closed spec fn defs(&self) -> Seq<Seq<Seq<char>>> {
        Seq::new(self.enum_defs@.len(), |i: int| self.enum_defs@[i].names())
    }

    pub fn new() -> (r: Self)
        ensures
            r.defs() == Seq::<Seq<Seq<char>>>::empty(),
    {
        let r = BinDecoderSchema { enum_defs: Vec::new() };
        assert(r.defs() =~= Seq::<Seq<Seq<char>>>::empty());
        r
    }
}

// ---------------------------------------------------------------------------
// The decoder and its handles.
// ---------------------------------------------------------------------------

/// The decoder: the input, the position reached, and the shared schema.
pub struct SimpleBinDecoder<'de, 's> {
    content: &'de [u8],
    pos: usize,
    schema: &'s mut BinDecoderSchema,
}

/// What the next value is read from: the input, or a key that was already
/// read as part of a definition.
pub enum BinAnyDecoder {
    U32(u32),
    Str(String),
    Read,
}

impl Default for BinAnyDecoder {
    fn default() -> (r: Self)
        ensures
            r is Read,
    {
        BinAnyDecoder::Read
    }
}

/// The handle of a sequence: the number of items left.
pub struct BinSeqDecoder {
    len: usize,
}

impl BinSeqDecoder {
    /// The number of items left.
    pub closed spec fn remaining(&self) -> usize {
        self.len
    }
}

/// The handle of a map: the field names of a struct with the index of the
/// next one, or, for a map, no names and the number of entries left.
pub struct BinMapDecoder {
    keys: Option<Vec<EnumDefKey>>,
    next: usize,
}

impl BinMapDecoder {
    /// The field names left, for a struct.
    pub closed spec fn keys_left(&self) -> Option<Seq<KeyName>> {
        match self.keys {
            Some(keys) => Some(
                if self.next <= keys@.len() {
                    keys_view(keys@).subrange(self.next as int, keys@.len() as int)
                } else {
                    Seq::empty()
                },
            ),
            None => None,
        }
    }

    /// The number of entries left, for a map.
    pub closed spec fn entries_left(&self) -> usize {
        self.next
    }
}

/// The key of a map entry: a field name already known, or one to read.
pub enum BinKeyDecoder {
    Foreign(String),
    Native(usize),
    Read,
}

/// The handle of an enum value: its variant.
pub struct BinDiscriminantDecoder {
    variant: EnumDefKey,
}

impl BinDiscriminantDecoder {
    /// The variant.
    pub closed spec fn variant(&self) -> KeyName {
        self.variant@
    }
}

/// The values that a view of this decoder holds.
pub open spec fn view_value<'de, 's>(v: SimpleDecoderView<SimpleBinDecoder<'de, 's>>) -> BinValue {
    match v {
        SimpleDecoderView::Primitive(p) => BinValue::Primitive(p),
        SimpleDecoderView::String(s) => BinValue::Text(s@),
        SimpleDecoderView::Bytes(b) => BinValue::ByteString(b@),
        SimpleDecoderView::OptionNone => BinValue::Absent,
        SimpleDecoderView::OptionSome(_) => BinValue::Present,
        SimpleDecoderView::Sequence(s) => BinValue::Items(s.remaining()),
        SimpleDecoderView::Mapping(m) => match m.keys_left() {
            Some(k) => BinValue::Fields(k),
            None => BinValue::Entries(m.entries_left()),
        },
        SimpleDecoderView::Enum(d) => BinValue::Variant(d.variant()),
    }
}

/// A hint for the payload of a variant.
pub open spec fn variant_hint(hint: DecodeVariantHint) -> DecodeHint {
    match hint {
        DecodeVariantHint::UnitVariant => DecodeHint::Primitive(PrimitiveType::Unit),
        DecodeVariantHint::TupleVariant { len } => DecodeHint::TupleStruct { name: "<enum>", len },
        DecodeVariantHint::StructVariant { fields } => DecodeHint::Struct { name: "<enum>", fields },
        DecodeVariantHint::Ignore => DecodeHint::Ignore,
    }
}


/// The kind of payload that follows a primitive tag.
fn payload_type(tag: TypeTag) -> (r: Option<PrimitiveType>)
    ensures
        r == tag_payload_type(tag),
{
    match tag {
        TypeTag::Bool => Some(PrimitiveType::Bool),
        TypeTag::I8 => Some(PrimitiveType::I8),
        TypeTag::I16 => Some(PrimitiveType::I16),
        TypeTag::I32 => Some(PrimitiveType::I32),
        TypeTag::I64 => Some(PrimitiveType::I64),
        TypeTag::I128 => Some(PrimitiveType::I128),
        TypeTag::U8 => Some(PrimitiveType::U8),
        TypeTag::U16 => Some(PrimitiveType::U16),
        TypeTag::U32 => Some(PrimitiveType::U32),
        TypeTag::U64 => Some(PrimitiveType::U64),
        TypeTag::U128 => Some(PrimitiveType::U128),
        TypeTag::F32 => Some(PrimitiveType::F32),
        TypeTag::F64 => Some(PrimitiveType::F32),
        TypeTag::Char => Some(PrimitiveType::Char),
        _ => None,
    }
}

/// The error of a failed low-level read.
fn to_error(e: ReadError) -> (r: Error)
    ensures
        r == read_error(e),
{
    match e {
        ReadError::Eof => Error::BinDecoder(BinDecoderError::Eof),
        ReadError::IntConversion => Error::IntConversion,
        ReadError::InvalidChar => Error::InvalidChar,
    }
}

/// The field names that a hint gives, if it is a struct hint.
fn fields_of(hint: DecodeHint) -> (r: Option<&'static [&'static str]>)
    ensures
        match r {
            Some(n) => hint_fields(hint) == Some(names_view(n@)),
            None => hint_fields(hint) is None,
        },
{
    match hint {
        DecodeHint::Struct { name, fields } => Some(fields),
        _ => None,
    }
}

/// The variant names that a hint gives, if it is an enum hint.
fn variants_of(hint: DecodeHint) -> (r: Option<&'static [&'static str]>)
    ensures
        match r {
            Some(n) => hint_variants(hint) == Some(names_view(n@)),
            None => hint_variants(hint) is None,
        },
{
    match hint {
        DecodeHint::Enum { name, variants } => Some(variants),
        _ => None,
    }
}

impl<'de, 's> SimpleBinDecoder<'de, 's> {
    /// The whole input.
    pub closed spec fn data(&self) -> Seq<u8> {
        self.content@
    }

    /// The position reached in the input.
    pub closed spec fn position(&self) -> int {
        self.pos as int
    }

    /// The enum definitions of the shared schema.
    pub closed spec fn defs(&self) -> Seq<Seq<Seq<char>>> {
        self.schema.defs()
    }

    /// The input not yet read.
    pub open spec fn rest(&self) -> Seq<u8> {
        if self.position() <= self.data().len() {
            self.data().subrange(self.position(), self.data().len() as int)
        } else {
            Seq::empty()
        }
    }

    pub fn new(data: &'de [u8], schema: &'s mut BinDecoderSchema) -> (r: SimpleBinDecoder<'de, 's>)
        ensures
            r.data() == data@,
            r.position() == 0,
            r.defs() == old(schema).defs(),
    {
        SimpleBinDecoder { content: data, pos: 0, schema }
    }

    /// Checks that only the zero padding is left of the input.
    pub fn end(self) -> (r: Result<(), Error>)
        ensures
            r == (if self.rest().len() > VU128_PADDING {
                Err(Error::BinDecoder(BinDecoderError::TrailingData))
            } else if exists|i: int| 0 <= i < self.rest().len() && self.rest()[i] != 0u8 {
                Err(Error::BinDecoder(BinDecoderError::NonZeroPadding))
            } else {
                Ok(())
            }),
    {
        if self.pos > self.content.len() {
            assert(self.rest().len() == 0);
            return Ok(());
        }
        let n = self.content.len() - self.pos;
        if n > VU128_PADDING {
            return Err(Error::BinDecoder(BinDecoderError::TrailingData));
        }
        assert(self.rest().len() == n);
        let mut i: usize = self.pos;
        while i < self.content.len()
            invariant
                self.pos <= i <= self.content@.len(),
                self.rest().len() <= VU128_PADDING,
                self.rest() == self.content@.subrange(self.pos as int, self.content@.len() as int),
                forall|j: int| self.pos <= j < i ==> self.content@[j] == 0u8,
            decreases self.content@.len() - i,
        {
            if self.content[i] != 0 {
                let ghost k: int = i - self.pos;
                assert(self.rest()[k] == self.content@[i as int]);
                assert(0 <= k < self.rest().len() && self.rest()[k] != 0u8);
                return Err(Error::BinDecoder(BinDecoderError::NonZeroPadding));
            }
            i = i + 1;
        }
        assert forall|k: int| 0 <= k < self.rest().len() implies self.rest()[k] == 0u8 by {
            assert(self.rest()[k] == self.content@[self.pos + k]);
        }
        Ok(())
    }

    /// The next `count` bytes.
    fn read_count(&mut self, count: usize) -> (r: Result<&'de [u8], Error>)
        requires
            old(self).position() <= old(self).data().len(),
        ensures
            final(self).data() == old(self).data(),
            final(self).defs() == old(self).defs(),
            final(self).position() <= final(self).data().len(),
            match r {
                Ok(b) => spec_read_count(old(self).data(), old(self).position(), count as int)
                    == Ok::<(Seq<u8>, int), Error>((b@, final(self).position())),
                Err(e) => spec_read_count(old(self).data(), old(self).position(), count as int)
                    == Err::<(Seq<u8>, int), Error>(e),
            },
    {
        if count <= self.content.len() - self.pos {
            let b = vstd::slice::slice_subrange(self.content, self.pos, self.pos + count);
            self.pos = self.pos + count;
            Ok(b)
        } else {
            Err(Error::BinDecoder(BinDecoderError::Eof))
        }
    }

    /// A length or an index.
    fn read_usize(&mut self) -> (r: Result<usize, Error>)
        requires
            old(self).position() <= old(self).data().len(),
        ensures
            final(self).data() == old(self).data(),
            final(self).defs() == old(self).defs(),
            final(self).position() <= final(self).data().len(),
            match r {
                Ok(n) => spec_read_usize(old(self).data(), old(self).position())
                    == Ok::<(usize, int), Error>((n, final(self).position())),
                Err(e) => spec_read_usize(old(self).data(), old(self).position())
                    == Err::<(usize, int), Error>(e),
            },
    {
        match read_u64(self.content, self.pos) {
            None => Err(Error::BinDecoder(BinDecoderError::Eof)),
            Some((v, p)) => {
                if v <= usize::MAX as u64 {
                    self.pos = p;
                    Ok(v as usize)
                } else {
                    Err(Error::IntConversion)
                }
            },
        }
    }

    /// The tag of the next value.
    fn decode_type_tag(&mut self) -> (r: Result<TypeTag, Error>)
        requires
            old(self).position() <= old(self).data().len(),
        ensures
            final(self).data() == old(self).data(),
            final(self).defs() == old(self).defs(),
            final(self).position() <= final(self).data().len(),
            old(self).position() < old(self).data().len() ==> ({
                let b = old(self).data()[old(self).position()];
                match spec_tag_from_u8(b) {
                    Some(t) => r == Ok::<TypeTag, Error>(t) && final(self).position() == old(self).position() + 1,
                    None => r == Err::<TypeTag, Error>(Error::BinDecoder(BinDecoderError::BadTag(b))),
                }
            }),
            old(self).position() >= old(self).data().len() ==> r == Err::<TypeTag, Error>(
                Error::BinDecoder(BinDecoderError::Eof),
            ),
    {
        let b = self.read_count(1)?;
        let tag_num = b[0];
        match TypeTag::from_u8(tag_num) {
            Some(t) => Ok(t),
            None => Err(Error::BinDecoder(BinDecoderError::BadTag(tag_num))),
        }
    }

    /// A byte string.
    fn read_bytes(&mut self) -> (r: Result<&'de [u8], Error>)
        requires
            old(self).position() <= old(self).data().len(),
        ensures
            final(self).data() == old(self).data(),
            final(self).defs() == old(self).defs(),
            final(self).position() <= final(self).data().len(),
            match r {
                Ok(b) => spec_read_bytes(old(self).data(), old(self).position())
                    == Ok::<(Seq<u8>, int), Error>((b@, final(self).position())),
                Err(e) => spec_read_bytes(old(self).data(), old(self).position())
                    == Err::<(Seq<u8>, int), Error>(e),
            },
    {
        let len = self.read_usize()?;
        self.read_count(len)
    }

    /// A text.
    fn read_str(&mut self) -> (r: Result<String, Error>)
        requires
            old(self).position() <= old(self).data().len(),
        ensures
            final(self).data() == old(self).data(),
            final(self).defs() == old(self).defs(),
            final(self).position() <= final(self).data().len(),
            match r {
                Ok(s) => spec_read_text(old(self).data(), old(self).position())
                    == Ok::<(Seq<char>, int), Error>((s@, final(self).position())),
                Err(e) => spec_read_text(old(self).data(), old(self).position())
                    == Err::<(Seq<char>, int), Error>(e),
            },
    {
        let b = self.read_bytes()?;
        match utf8_string(b) {
            Some(s) => Ok(s),
            None => Err(Error::InvalidUtf8),
        }
    }

    /// An enum definition, added to the schema.
    fn read_enum_def(&mut self) -> (r: Result<(), Error>)
        requires
            old(self).position() <= old(self).data().len(),
        ensures
            final(self).data() == old(self).data(),
            final(self).position() <= final(self).data().len(),
            match spec_read_enum_def(old(self).data(), old(self).position()) {
                Ok((def, q)) => r is Ok && final(self).position() == q
                    && final(self).defs() == old(self).defs().push(def),
                Err(e) => r == Err::<(), Error>(e) && final(self).defs() == old(self).defs(),
            },
    {
        let ghost data = self.data();
        let ghost start = self.position();
        let count = self.read_usize()?;
        let ghost p0 = self.position();
        let mut fields: Vec<String> = Vec::new();
        let mut i: usize = 0;
        assert(Seq::new(fields@.len(), |j: int| fields@[j]@) =~= Seq::<Seq<char>>::empty());
        while i < count
            invariant
                i <= count,
                data == old(self).data(),
                start == old(self).position(),
                self.data() == data,
                self.defs() == old(self).defs(),
                self.position() <= self.data().len(),
                spec_read_usize(data, start) == Ok::<(usize, int), Error>((count, p0)),
                spec_read_names(data, p0, i as nat) == Ok::<(Seq<Seq<char>>, int), Error>(
                    (Seq::new(fields@.len(), |j: int| fields@[j]@), self.position()),
                ),
            decreases count - i,
        {
            let s = self.read_str();
            match s {
                Ok(s) => {
                    let ghost before = Seq::new(fields@.len(), |j: int| fields@[j]@);
                    fields.push(s);
                    assert(Seq::new(fields@.len(), |j: int| fields@[j]@) =~= before.push(s@));
                },
                Err(e) => {
                    proof {
                        lemma_read_names_fails(data, p0, (i + 1) as nat, count as nat);
                    }
                    return Err(e);
                },
            }
            i = i + 1;
        }
        let def = EnumDefForeign { fields };
        let ghost old_defs = self.defs();
        self.schema.enum_defs.push(def);
        assert(self.defs() =~= old_defs.push(def.names()));
        Ok(())
    }

    /// One decoding step that reads from the input: the enum definitions met
    /// first are read and added to the schema, then one value is read.
    fn decode_read(&mut self, hint: DecodeHint) -> (r: Result<SimpleDecoderView<SimpleBinDecoder<'de, 's>>, Error>)
        ensures
            final(self).data() == old(self).data(),
            match spec_bin_decode(old(self).data(), old(self).position(), old(self).defs(), hint) {
                Ok((value, q, defs)) => r matches Ok(v) && view_value(v) == value
                    && final(self).position() == q && final(self).defs() == defs,
                Err(e) => r matches Err(f) && f == e
                    && final(self).defs() == bin_defs_read(old(self).data(), old(self).position(), old(self).defs()),
            },
    {
        if self.pos > self.content.len() {
            return Err(Error::BinDecoder(BinDecoderError::Eof));
        }
        let ghost data = self.data();
        let ghost goal = spec_bin_decode(data, self.position(), self.defs(), hint);
        loop
            invariant
                data == old(self).data(),
                goal == spec_bin_decode(old(self).data(), old(self).position(), old(self).defs(), hint),
                self.data() == data,
                self.position() <= data.len(),
                spec_bin_decode(data, self.position(), self.defs(), hint) == goal,
                bin_defs_read(data, self.position(), self.defs())
                    == bin_defs_read(old(self).data(), old(self).position(), old(self).defs()),
            decreases data.len() - self.position(),
        {
            let ghost pos0 = self.position();
            let ghost defs0 = self.defs();
            let tag = self.decode_type_tag()?;
            match payload_type(tag) {
                Some(t) => match read_payload(self.content, self.pos, t) {
                    Ok((p, q)) => {
                        self.pos = q;
                        return Ok(SimpleDecoderView::Primitive(p));
                    },
                    Err(e) => {
                        return Err(to_error(e));
                    },
                },
                None => {},
            }
            match tag {
                TypeTag::Unit | TypeTag::UnitStruct => {
                    return Ok(SimpleDecoderView::Primitive(Primitive::Unit));
                },
                TypeTag::OptionNone => {
                    return Ok(SimpleDecoderView::OptionNone);
                },
                TypeTag::OptionSome => {
                    return Ok(SimpleDecoderView::OptionSome(()));
                },
                TypeTag::String => {
                    let s = self.read_str()?;
                    return Ok(SimpleDecoderView::String(s));
                },
                TypeTag::Bytes => {
                    let b = self.read_bytes()?;
                    return Ok(SimpleDecoderView::Bytes(vstd::slice::slice_to_vec(b)));
                },
                TypeTag::Tuple | TypeTag::TupleStruct | TypeTag::Sequence => {
                    let len = self.read_usize()?;
                    return Ok(SimpleDecoderView::Sequence(BinSeqDecoder { len }));
                },
                TypeTag::Mapping => {
                    let len = self.read_usize()?;
                    return Ok(SimpleDecoderView::Mapping(BinMapDecoder { keys: None, next: len }));
                },
                TypeTag::Struct => {
                    let d = self.read_enum_def_ref()?;
                    let keys = self.schema.enum_defs[d].get_translation(fields_of(hint));
                    let m = BinMapDecoder { keys: Some(keys), next: 0 };
                    assert(keys_view(keys@).subrange(0, keys@.len() as int) =~= keys_view(keys@));
                    return Ok(SimpleDecoderView::Mapping(m));
                },
                TypeTag::Enum => {
                    let d = self.read_enum_def_ref()?;
                    let v = self.read_usize()?;
                    let keys = self.schema.enum_defs[d].get_translation(variants_of(hint));
                    if v < keys.len() {
                        let variant = keys[v].duplicate();
                        assert(variant@ == keys_view(keys@)[v as int]);
                        return Ok(SimpleDecoderView::Enum(BinDiscriminantDecoder { variant }));
                    } else {
                        return Err(Error::BinDecoder(BinDecoderError::NoSuchVariant(v)));
                    }
                },
                _ => {
                    proof {
                        lemma_read_enum_def_advances(data, pos0 + 1);
                    }
                    self.read_enum_def()?;
                },
            }
        }
    }

    /// The index of a definition, which must have been read already.
    fn read_enum_def_ref(&mut self) -> (r: Result<usize, Error>)
        requires
            old(self).position() <= old(self).data().len(),
        ensures
            final(self).data() == old(self).data(),
            final(self).defs() == old(self).defs(),
            final(self).position() <= final(self).data().len(),
            match spec_read_usize(old(self).data(), old(self).position()) {
                Ok((d, q)) => if d < old(self).defs().len() {
                    r == Ok::<usize, Error>(d) && final(self).position() == q
                } else {
                    r == Err::<usize, Error>(Error::BinDecoder(BinDecoderError::NoSuchEnumDef))
                },
                Err(e) => r == Err::<usize, Error>(e),
            },
    {
        let index = self.read_usize()?;
        if index < self.schema.enum_defs.len() {
            Ok(index)
        } else {
            Err(Error::BinDecoder(BinDecoderError::NoSuchEnumDef))
        }
    }
}


/// The name that a key handle already holds, if it holds one.
pub open spec fn key_known(k: BinKeyDecoder) -> Option<KeyName> {
    match k {
        BinKeyDecoder::Foreign(s) => Some(KeyName::Foreign(s@)),
        BinKeyDecoder::Native(n) => Some(KeyName::Native(n)),
        BinKeyDecoder::Read => None,
    }
}

/// The hint for the payload of a variant.
fn to_variant_hint(hint: DecodeVariantHint) -> (r: DecodeHint)
    ensures
        r == variant_hint(hint),
{
    match hint {
        DecodeVariantHint::UnitVariant => DecodeHint::Primitive(PrimitiveType::Unit),
        DecodeVariantHint::TupleVariant { len } => DecodeHint::TupleStruct { name: "<enum>", len },
        DecodeVariantHint::StructVariant { fields } => DecodeHint::Struct { name: "<enum>", fields },
        DecodeVariantHint::Ignore => DecodeHint::Ignore,
    }
}

impl<'de, 's> SpecDecoder for SimpleBinDecoder<'de, 's> {
    type AnyDecoder = BinAnyDecoder;
    type SeqDecoder = BinSeqDecoder;
    type MapDecoder = BinMapDecoder;
    type KeyDecoder = BinKeyDecoder;
    type ValueDecoder = ();
    type DiscriminantDecoder = BinDiscriminantDecoder;
    type VariantDecoder = ();
    type EnumCloser = ();
    type SomeDecoder = ();
    type SomeCloser = ();

    closed spec fn input_left(&self) -> nat {
        if self.position() <= self.data().len() {
            (self.data().len() - self.position()) as nat
        } else {
            0
        }
    }

    closed spec fn seq_left(seq: BinSeqDecoder) -> nat {
        seq.remaining() as nat
    }

    closed spec fn map_left(map: BinMapDecoder) -> nat {
        match map.keys_left() {
            Some(k) => k.len(),
            None => map.entries_left() as nat,
        }
    }

    closed spec fn decode_state(
        &self,
        any: BinAnyDecoder,
        hint: DecodeHint,
        r: Result<SimpleDecoderView<SimpleBinDecoder<'de, 's>>, Error>,
        next: Self,
    ) -> bool {
        match any {
            BinAnyDecoder::Read => next.data() == self.data() && match spec_bin_decode(self.data(), self.position(), self.defs(), hint) {
                Ok((value, q, defs)) => next.position() == q && next.defs() == defs,
                Err(e) => next.defs() == bin_defs_read(self.data(), self.position(), self.defs()),
            },
            _ => next == *self,
        }
    }

    closed spec fn seq_next_state(&self, seq: BinSeqDecoder, seq_after: BinSeqDecoder, next: Self) -> bool {
        &&& next == *self
        &&& seq.remaining() > 0 ==> seq_after.remaining() == seq.remaining() - 1
        &&& seq.remaining() == 0 ==> seq_after.remaining() == 0
    }

    closed spec fn seq_end_state(&self, seq: BinSeqDecoder, next: Self) -> bool {
        next == *self
    }

    closed spec fn map_next_state(
        &self,
        map: BinMapDecoder,
        map_after: BinMapDecoder,
        r: Result<Option<BinKeyDecoder>, Error>,
        next: Self,
    ) -> bool {
        &&& next == *self
        &&& match map.keys_left() {
            Some(k) => if k.len() > 0 {
                map_after.keys_left() == Some(k.drop_first())
            } else {
                map_after.keys_left() == Some(k)
            },
            None => map_after.keys_left() is None && if map.entries_left() > 0 {
                map_after.entries_left() == map.entries_left() - 1
            } else {
                map_after.entries_left() == 0
            },
        }
    }

    closed spec fn map_end_state(&self, map: BinMapDecoder, next: Self) -> bool {
        next == *self
    }

    closed spec fn entry_key_state(&self, key: BinKeyDecoder, next: Self) -> bool {
        next == *self
    }

    closed spec fn entry_value_state(&self, value: (), next: Self) -> bool {
        next == *self
    }

    closed spec fn enum_discriminant_state(&self, e: BinDiscriminantDecoder, next: Self) -> bool {
        next == *self
    }

    closed spec fn enum_variant_state(
        &self,
        e: (),
        hint: DecodeVariantHint,
        r: Result<(SimpleDecoderView<SimpleBinDecoder<'de, 's>>, ()), Error>,
        next: Self,
    ) -> bool {
        next.data() == self.data() && match spec_bin_decode(self.data(), self.position(), self.defs(), variant_hint(hint)) {
            Ok((value, q, defs)) => next.position() == q && next.defs() == defs,
            Err(e) => next.defs() == bin_defs_read(self.data(), self.position(), self.defs()),
        }
    }

    closed spec fn enum_end_state(&self, e: (), next: Self) -> bool {
        next == *self
    }

    closed spec fn some_inner_state(&self, e: (), next: Self) -> bool {
        next == *self
    }

    closed spec fn some_end_state(&self, p: (), next: Self) -> bool {
        next == *self
    }

    closed spec fn decode_spec(
        &self,
        any: BinAnyDecoder,
        hint: DecodeHint,
        r: Result<SimpleDecoderView<SimpleBinDecoder<'de, 's>>, Error>,
    ) -> bool {
        match any {
            BinAnyDecoder::U32(x) => r matches Ok(v) && view_value(v) == BinValue::Primitive(Primitive::U32(x)),
            BinAnyDecoder::Str(s) => r matches Ok(v) && view_value(v) == BinValue::Text(s@),
            BinAnyDecoder::Read => match spec_bin_decode(self.data(), self.position(), self.defs(), hint) {
                Ok((value, q, defs)) => r matches Ok(v) && view_value(v) == value,
                Err(e) => r matches Err(f) && f == e,
            },
        }
    }

    fn decode(&mut self, any: BinAnyDecoder, hint: DecodeHint) -> (r: Result<SimpleDecoderView<Self>, Error>)
        ensures
            final(self).data() == old(self).data(),
            match any {
                BinAnyDecoder::U32(x) => r matches Ok(v) && view_value(v) == BinValue::Primitive(Primitive::U32(x))
                    && *final(self) == *old(self),
                BinAnyDecoder::Str(s) => r matches Ok(v) && view_value(v) == BinValue::Text(s@)
                    && *final(self) == *old(self),
                BinAnyDecoder::Read => match spec_bin_decode(old(self).data(), old(self).position(), old(self).defs(), hint) {
                    Ok((value, q, defs)) => r matches Ok(v) && view_value(v) == value
                        && final(self).position() == q && final(self).defs() == defs,
                    Err(e) => r matches Err(f) && f == e
                        && final(self).defs() == bin_defs_read(old(self).data(), old(self).position(), old(self).defs()),
                },
            },
    {
        proof {
            lemma_bin_decode_advances(self.data(), self.position(), self.defs(), hint);
        }
        match any {
            BinAnyDecoder::U32(x) => Ok(SimpleDecoderView::Primitive(Primitive::U32(x))),
            BinAnyDecoder::Str(x) => Ok(SimpleDecoderView::String(x)),
            BinAnyDecoder::Read => self.decode_read(hint),
        }
    }

    closed spec fn human_readable_spec(&self) -> bool {
        false
    }

    fn is_human_readable(&self) -> (r: bool)
        ensures
            !r,
    {
        false
    }

    /// The number of items left is not given out: the reader goes until
    /// the decoder says there are none.
    closed spec fn seq_exact_size_spec(&self, seq: BinSeqDecoder) -> Option<usize> {
        None
    }

    fn decode_seq_exact_size(&self, seq: &BinSeqDecoder) -> (r: Option<usize>) {
        None
    }

    closed spec fn map_exact_size_spec(&self, map: BinMapDecoder) -> Option<usize> {
        None
    }

    fn decode_map_exact_size(&self, map: &BinMapDecoder) -> (r: Option<usize>) {
        None
    }

    closed spec fn seq_next_spec(&self, seq: BinSeqDecoder) -> Result<Option<BinAnyDecoder>, Error> {
        if seq.len > 0 {
            Ok(Some(BinAnyDecoder::Read))
        } else {
            Ok(None)
        }
    }

    fn decode_seq_next(&mut self, seq: &mut BinSeqDecoder) -> (r: Result<Option<BinAnyDecoder>, Error>)
        ensures
            *final(self) == *old(self),
            old(seq).remaining() > 0 ==> (r matches Ok(Some(BinAnyDecoder::Read))
                && final(seq).remaining() == old(seq).remaining() - 1),
            old(seq).remaining() == 0 ==> (r matches Ok(None) && final(seq).remaining() == 0),
    {
        if seq.len > 0 {
            seq.len = seq.len - 1;
            Ok(Some(BinAnyDecoder::Read))
        } else {
            Ok(None)
        }
    }

    closed spec fn seq_end_spec(&self, seq: BinSeqDecoder) -> Result<(), Error> {
        Ok(())
    }

    closed spec fn map_end_spec(&self, map: BinMapDecoder) -> Result<(), Error> {
        Ok(())
    }

    closed spec fn enum_end_spec(&self, e: ()) -> Result<(), Error> {
        Ok(())
    }

    closed spec fn some_end_spec(&self, p: ()) -> Result<(), Error> {
        Ok(())
    }

    fn decode_seq_end(&mut self, seq: BinSeqDecoder) -> (r: Result<(), Error>)
        ensures
            r is Ok,
            *final(self) == *old(self),
    {
        Ok(())
    }

    closed spec fn map_next_spec(&self, map: BinMapDecoder, r: Result<Option<BinKeyDecoder>, Error>) -> bool {
        match map.keys_left() {
            Some(k) => if k.len() > 0 {
                r matches Ok(Some(key)) && key_known(key) == Some(k[0])
            } else {
                r matches Ok(None)
            },
            None => if map.entries_left() > 0 {
                r matches Ok(Some(BinKeyDecoder::Read))
            } else {
                r matches Ok(None)
            },
        }
    }

    fn decode_map_next(&mut self, map: &mut BinMapDecoder) -> (r: Result<Option<BinKeyDecoder>, Error>)
        ensures
            *final(self) == *old(self),
            match old(map).keys_left() {
                Some(k) => if k.len() > 0 {
                    r matches Ok(Some(key)) && key_known(key) == Some(k[0])
                        && final(map).keys_left() == Some(k.drop_first())
                } else {
                    r matches Ok(None) && final(map).keys_left() == Some(k)
                },
                None => if old(map).entries_left() > 0 {
                    r matches Ok(Some(BinKeyDecoder::Read)) && final(map).keys_left() is None
                        && final(map).entries_left() == old(map).entries_left() - 1
                } else {
                    r matches Ok(None) && final(map).keys_left() is None && final(map).entries_left() == 0
                },
            },
    {
        match &map.keys {
            Some(keys) => {
                if map.next < keys.len() {
                    let key = keys[map.next].duplicate();
                    let ghost k = keys_view(keys@).subrange(map.next as int, keys@.len() as int);
                    map.next = map.next + 1;
                    assert(k[0] == key@);
                    assert(map.keys_left() == Some(k.drop_first()));
                    match key {
                        EnumDefKey::Native(x) => Ok(Some(BinKeyDecoder::Native(x))),
                        EnumDefKey::Foreign(x) => Ok(Some(BinKeyDecoder::Foreign(x))),
                    }
                } else {
                    Ok(None)
                }
            },
            None => {
                if map.next > 0 {
                    map.next = map.next - 1;
                    Ok(Some(BinKeyDecoder::Read))
                } else {
                    Ok(None)
                }
            },
        }
    }

    fn decode_map_end(&mut self, map: BinMapDecoder) -> (r: Result<(), Error>)
        ensures
            r is Ok,
            *final(self) == *old(self),
    {
        Ok(())
    }

    closed spec fn entry_key_spec(&self, key: BinKeyDecoder) -> Result<(BinAnyDecoder, ()), Error> {
        match key {
            BinKeyDecoder::Foreign(s) => Ok((BinAnyDecoder::Str(s), ())),
            BinKeyDecoder::Native(n) => if n <= u32::MAX {
                Ok((BinAnyDecoder::U32(n as u32), ()))
            } else {
                Err(Error::IntConversion)
            },
            BinKeyDecoder::Read => Ok((BinAnyDecoder::Read, ())),
        }
    }

    closed spec fn entry_value_spec(&self, value: ()) -> Result<BinAnyDecoder, Error> {
        Ok(BinAnyDecoder::Read)
    }

    closed spec fn enum_discriminant_spec(&self, e: BinDiscriminantDecoder) -> Result<(BinAnyDecoder, ()), Error> {
        match e.variant {
            EnumDefKey::Native(n) => if n <= u32::MAX {
                Ok((BinAnyDecoder::U32(n as u32), ()))
            } else {
                Err(Error::IntConversion)
            },
            EnumDefKey::Foreign(s) => Ok((BinAnyDecoder::Str(s), ())),
        }
    }

    closed spec fn some_inner_spec(&self, e: ()) -> Result<(BinAnyDecoder, ()), Error> {
        Ok((BinAnyDecoder::Read, ()))
    }

    fn decode_entry_key(&mut self, key: BinKeyDecoder) -> (r: Result<(BinAnyDecoder, ()), Error>)
        ensures
            *final(self) == *old(self),
            match key {
                BinKeyDecoder::Foreign(s) => r == Ok::<(BinAnyDecoder, ()), Error>((BinAnyDecoder::Str(s), ())),
                BinKeyDecoder::Native(n) => if n <= u32::MAX {
                    r == Ok::<(BinAnyDecoder, ()), Error>((BinAnyDecoder::U32(n as u32), ()))
                } else {
                    r == Err::<(BinAnyDecoder, ()), Error>(Error::IntConversion)
                },
                BinKeyDecoder::Read => r == Ok::<(BinAnyDecoder, ()), Error>((BinAnyDecoder::Read, ())),
            },
    {
        match key {
            BinKeyDecoder::Foreign(x) => Ok((BinAnyDecoder::Str(x), ())),
            BinKeyDecoder::Native(x) => if x <= u32::MAX as usize {
                Ok((BinAnyDecoder::U32(x as u32), ()))
            } else {
                Err(Error::IntConversion)
            },
            BinKeyDecoder::Read => Ok((BinAnyDecoder::Read, ())),
        }
    }

    fn decode_entry_value(&mut self, value: ()) -> (r: Result<BinAnyDecoder, Error>)
        ensures
            *final(self) == *old(self),
            r matches Ok(BinAnyDecoder::Read),
    {
        Ok(BinAnyDecoder::Read)
    }

    fn decode_enum_discriminant(&mut self, e: BinDiscriminantDecoder) -> (r: Result<(BinAnyDecoder, ()), Error>)
        ensures
            *final(self) == *old(self),
            match e.variant() {
                KeyName::Native(n) => if n <= u32::MAX {
                    r == Ok::<(BinAnyDecoder, ()), Error>((BinAnyDecoder::U32(n as u32), ()))
                } else {
                    r == Err::<(BinAnyDecoder, ()), Error>(Error::IntConversion)
                },
                KeyName::Foreign(name) => r matches Ok((BinAnyDecoder::Str(s), ())) && s@ == name,
            },
    {
        match e.variant {
            EnumDefKey::Native(x) => if x <= u32::MAX as usize {
                Ok((BinAnyDecoder::U32(x as u32), ()))
            } else {
                Err(Error::IntConversion)
            },
            EnumDefKey::Foreign(y) => Ok((BinAnyDecoder::Str(y), ())),
        }
    }

    closed spec fn enum_variant_spec(
        &self,
        e: (),
        hint: DecodeVariantHint,
        r: Result<(SimpleDecoderView<SimpleBinDecoder<'de, 's>>, ()), Error>,
    ) -> bool {
        match spec_bin_decode(self.data(), self.position(), self.defs(), variant_hint(hint)) {
            Ok((value, q, defs)) => r matches Ok((v, ())) && view_value(v) == value,
            Err(e) => r matches Err(f) && f == e,
        }
    }

    fn decode_enum_variant(&mut self, e: (), hint: DecodeVariantHint) -> (r: Result<
        (SimpleDecoderView<Self>, ()),
        Error,
    >)
        ensures
            final(self).data() == old(self).data(),
            match spec_bin_decode(old(self).data(), old(self).position(), old(self).defs(), variant_hint(hint)) {
                Ok((value, q, defs)) => r matches Ok((v, ())) && view_value(v) == value
                    && final(self).position() == q && final(self).defs() == defs,
                Err(e) => r matches Err(f) && f == e
                    && final(self).defs() == bin_defs_read(old(self).data(), old(self).position(), old(self).defs()),
            },
    {
        proof {
            lemma_bin_decode_advances(self.data(), self.position(), self.defs(), variant_hint(hint));
        }
        let view = self.decode(BinAnyDecoder::Read, to_variant_hint(hint))?;
        Ok((view, ()))
    }

    fn decode_enum_end(&mut self, e: ()) -> (r: Result<(), Error>)
        ensures
            r is Ok,
            *final(self) == *old(self),
    {
        Ok(())
    }

    fn decode_some_inner(&mut self, e: ()) -> (r: Result<(BinAnyDecoder, ()), Error>)
        ensures
            *final(self) == *old(self),
            r matches Ok((BinAnyDecoder::Read, ())),
    {
        Ok((BinAnyDecoder::Read, ()))
    }

    fn decode_some_end(&mut self, p: ()) -> (r: Result<(), Error>)
        ensures
            r is Ok,
            *final(self) == *old(self),
    {
        Ok(())
    }
}

} // verus!
