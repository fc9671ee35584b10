//! The decoding interface: hints that a target type gives to a decoder, the
//! view a decoder returns for one value, and the operations a decoder offers.
use vstd::prelude::*;
use crate::error::{Error, TypeMismatch};
use crate::primitive::{Primitive, PrimitiveType, integer_value, kind_name, spec_to_usize, type_of};
use crate::text::{first_index_of, lemma_first_index_of, names_view, str_position};

pub mod depth_budget;
pub mod enum_helper;
pub mod ignore;
pub mod poison;
pub mod struct_helper;
pub mod tuple_helper;

verus! {

/// What the target type expects to find next.
#[derive(Debug, Copy, Clone)]
pub enum DecodeHint {
    Any,
    Primitive(PrimitiveType),
    String,
    Bytes,
    Option,
    UnitStruct { name: &'static str },
    Sequence,
    Tuple { len: usize },
    TupleStruct { name: &'static str, len: usize },
    Mapping,
    Struct { name: &'static str, fields: &'static [&'static str] },
    Enum { name: &'static str, variants: &'static [&'static str] },
    Identifier,
    Ignore,
}

/// What the target type expects to find in the payload of an enum variant.
#[derive(Debug, Copy, Clone)]
pub enum DecodeVariantHint {
    UnitVariant,
    TupleVariant { len: usize },
    StructVariant { fields: &'static [&'static str] },
    Ignore,
}

/// What one decoding step found: a complete leaf value, or a handle to go on
/// decoding a nested value with.
pub enum SimpleDecoderView<D: SpecDecoder> {
    Primitive(Primitive),
    String(String),
    Bytes(Vec<u8>),
    OptionNone,
    OptionSome(D::SomeDecoder),
    Sequence(D::SeqDecoder),
    Mapping(D::MapDecoder),
    Enum(D::DiscriminantDecoder),
}

/// The operations of a decoder, each taking the handle that the previous
/// operation returned.  A format implements this trait; wrappers such as the
/// poison and depth-budget decoders implement it around another decoder.
pub trait SpecDecoder: Sized {
    type AnyDecoder;
    type SeqDecoder;
    type MapDecoder;
    type KeyDecoder;
    type ValueDecoder;
    type DiscriminantDecoder;
    type VariantDecoder;
    type EnumCloser;
    type SomeDecoder;
    type SomeCloser;

    /// How much input is left to read.  No step that succeeds raises it, and
    /// a step that skips a value (hint `Ignore`) and opens a nested one has
    /// lowered it, so that walking over any value ends.
    spec fn input_left(&self) -> nat;

    /// How many items are left in a sequence: each item handed out lowers it.
    spec fn seq_left(seq: Self::SeqDecoder) -> nat;

    /// How many entries are left in a map: each entry handed out lowers it.
    spec fn map_left(map: Self::MapDecoder) -> nat;

    /// Whether `r` is what one decoding step from `any` with `hint` may give
    /// in this state.
    spec fn decode_spec(&self, any: Self::AnyDecoder, hint: DecodeHint, r: Result<SimpleDecoderView<Self>, Error>) -> bool;

    /// Whether `next` is a state that a decoding step from `any` with `hint`
    /// that gave `r` may leave.
    spec fn decode_state(&self, any: Self::AnyDecoder, hint: DecodeHint, r: Result<SimpleDecoderView<Self>, Error>, next: Self) -> bool;

    fn decode(&mut self, any: Self::AnyDecoder, hint: DecodeHint) -> (r: Result<
        SimpleDecoderView<Self>,
        Error,
    >)
        ensures
            old(self).decode_spec(any, hint, r),
            old(self).decode_state(any, hint, r, *final(self)),
            r is Ok ==> final(self).input_left() <= old(self).input_left(),
            hint is Ignore && (r matches Ok(v) && (v is OptionSome || v is Sequence || v is Mapping || v is Enum)) ==> final(self).input_left()
                < old(self).input_left(),
    ;

    /// Whether the format is meant to be read by people.
    spec fn human_readable_spec(&self) -> bool;

    fn is_human_readable(&self) -> (r: bool)
        ensures
            r == self.human_readable_spec(),
    ;

    /// What the next step over the sequence `seq` gives in this state.
    spec fn seq_next_spec(&self, seq: Self::SeqDecoder) -> Result<Option<Self::AnyDecoder>, Error>;

    /// Whether `next` and `seq_after` are the state and the sequence handle
    /// that the next step over `seq` may leave.
    spec fn seq_next_state(&self, seq: Self::SeqDecoder, seq_after: Self::SeqDecoder, next: Self) -> bool;

    fn decode_seq_next(&mut self, seq: &mut Self::SeqDecoder) -> (r: Result<
        Option<Self::AnyDecoder>,
        Error,
    >)
        ensures
            r == old(self).seq_next_spec(*old(seq)),
            old(self).seq_next_state(*old(seq), *final(seq), *final(self)),
            r is Ok ==> final(self).input_left() <= old(self).input_left(),
            r matches Ok(Some(_)) ==> Self::seq_left(*final(seq)) < Self::seq_left(*old(seq)),
    ;

    /// The number of elements left in `seq`, where the decoder knows it.
    spec fn seq_exact_size_spec(&self, seq: Self::SeqDecoder) -> Option<usize>;

    fn decode_seq_exact_size(&self, seq: &Self::SeqDecoder) -> (r: Option<usize>)
        ensures
            r == self.seq_exact_size_spec(*seq),
    ;

    /// What ending a sequence gives in this state.
    spec fn seq_end_spec(&self, seq: Self::SeqDecoder) -> Result<(), Error>;

    /// Whether `next` is a state that ending `seq` may leave.
    spec fn seq_end_state(&self, seq: Self::SeqDecoder, next: Self) -> bool;

    fn decode_seq_end(&mut self, seq: Self::SeqDecoder) -> (r: Result<(), Error>)
        ensures
            r == old(self).seq_end_spec(seq),
            old(self).seq_end_state(seq, *final(self)),
            r is Ok ==> final(self).input_left() <= old(self).input_left(),
    ;

    /// Whether `r` is what the next step over the map `map` may give in this
    /// state.
    spec fn map_next_spec(&self, map: Self::MapDecoder, r: Result<Option<Self::KeyDecoder>, Error>) -> bool;

    /// Whether `next` and `map_after` are the state and the map handle that
    /// the next step over `map`, giving `r`, may leave.
    spec fn map_next_state(
        &self,
        map: Self::MapDecoder,
        map_after: Self::MapDecoder,
        r: Result<Option<Self::KeyDecoder>, Error>,
        next: Self,
    ) -> bool;

    fn decode_map_next(&mut self, map: &mut Self::MapDecoder) -> (r: Result<
        Option<Self::KeyDecoder>,
        Error,
    >)
        ensures
            old(self).map_next_spec(*old(map), r),
            old(self).map_next_state(*old(map), *final(map), r, *final(self)),
            r is Ok ==> final(self).input_left() <= old(self).input_left(),
            r matches Ok(Some(_)) ==> Self::map_left(*final(map)) < Self::map_left(*old(map)),
    ;

    /// The number of entries left in `map`, where the decoder knows it.
    spec fn map_exact_size_spec(&self, map: Self::MapDecoder) -> Option<usize>;

    fn decode_map_exact_size(&self, map: &Self::MapDecoder) -> (r: Option<usize>)
        ensures
            r == self.map_exact_size_spec(*map),
    ;

    /// What ending a map gives in this state.
    spec fn map_end_spec(&self, map: Self::MapDecoder) -> Result<(), Error>;

    /// Whether `next` is a state that this step on `map` may leave.
    spec fn map_end_state(&self, map: Self::MapDecoder, next: Self) -> bool;

    fn decode_map_end(&mut self, map: Self::MapDecoder) -> (r: Result<(), Error>)
        ensures
            r == old(self).map_end_spec(map),
            old(self).map_end_state(map, *final(self)),
            r is Ok ==> final(self).input_left() <= old(self).input_left(),
    ;

    /// What taking the key of an entry gives in this state.
    spec fn entry_key_spec(&self, key: Self::KeyDecoder) -> Result<(Self::AnyDecoder, Self::ValueDecoder), Error>;

    /// Whether `next` is a state that this step on `key` may leave.
    spec fn entry_key_state(&self, key: Self::KeyDecoder, next: Self) -> bool;

    fn decode_entry_key(&mut self, key: Self::KeyDecoder) -> (r: Result<
        (Self::AnyDecoder, Self::ValueDecoder),
        Error,
    >)
        ensures
            r == old(self).entry_key_spec(key),
            old(self).entry_key_state(key, *final(self)),
            r is Ok ==> final(self).input_left() <= old(self).input_left(),
    ;

    /// What taking the value of an entry gives in this state.
    spec fn entry_value_spec(&self, value: Self::ValueDecoder) -> Result<Self::AnyDecoder, Error>;

    /// Whether `next` is a state that this step on `value` may leave.
    spec fn entry_value_state(&self, value: Self::ValueDecoder, next: Self) -> bool;

    fn decode_entry_value(&mut self, value: Self::ValueDecoder) -> (r: Result<Self::AnyDecoder, Error>)
        ensures
            r == old(self).entry_value_spec(value),
            old(self).entry_value_state(value, *final(self)),
            r is Ok ==> final(self).input_left() <= old(self).input_left(),
    ;

    /// What taking the discriminant of an enum value gives in this state.
    spec fn enum_discriminant_spec(&self, e: Self::DiscriminantDecoder) -> Result<
        (Self::AnyDecoder, Self::VariantDecoder),
        Error,
    >;

    /// Whether `next` is a state that this step on `e` may leave.
    spec fn enum_discriminant_state(&self, e: Self::DiscriminantDecoder, next: Self) -> bool;

    fn decode_enum_discriminant(&mut self, e: Self::DiscriminantDecoder) -> (r: Result<
        (Self::AnyDecoder, Self::VariantDecoder),
        Error,
    >)
        ensures
            r == old(self).enum_discriminant_spec(e),
            old(self).enum_discriminant_state(e, *final(self)),
            r is Ok ==> final(self).input_left() <= old(self).input_left(),
    ;

    /// Whether `r` is what decoding the payload of a variant with `hint` may
    /// give in this state.
    spec fn enum_variant_spec(
        &self,
        e: Self::VariantDecoder,
        hint: DecodeVariantHint,
        r: Result<(SimpleDecoderView<Self>, Self::EnumCloser), Error>,
    ) -> bool;

    /// Whether `next` is a state that decoding the payload of a variant with
    /// `hint`, giving `r`, may leave.
    spec fn enum_variant_state(
        &self,
        e: Self::VariantDecoder,
        hint: DecodeVariantHint,
        r: Result<(SimpleDecoderView<Self>, Self::EnumCloser), Error>,
        next: Self,
    ) -> bool;

    fn decode_enum_variant(&mut self, e: Self::VariantDecoder, hint: DecodeVariantHint) -> (r: Result<
        (SimpleDecoderView<Self>, Self::EnumCloser),
        Error,
    >)
        ensures
            old(self).enum_variant_spec(e, hint, r),
            old(self).enum_variant_state(e, hint, r, *final(self)),
            r is Ok ==> final(self).input_left() <= old(self).input_left(),
            hint is Ignore && (r matches Ok((v, _)) && (v is OptionSome || v is Sequence || v is Mapping || v is Enum)) ==> final(self).input_left()
                < old(self).input_left(),
    ;

    /// What ending an enum value gives in this state.
    spec fn enum_end_spec(&self, e: Self::EnumCloser) -> Result<(), Error>;

    /// Whether `next` is a state that this step on `e` may leave.
    spec fn enum_end_state(&self, e: Self::EnumCloser, next: Self) -> bool;

    fn decode_enum_end(&mut self, e: Self::EnumCloser) -> (r: Result<(), Error>)
        ensures
            r == old(self).enum_end_spec(e),
            old(self).enum_end_state(e, *final(self)),
            r is Ok ==> final(self).input_left() <= old(self).input_left(),
    ;

    /// What taking the value inside a present option gives in this state.
    spec fn some_inner_spec(&self, e: Self::SomeDecoder) -> Result<(Self::AnyDecoder, Self::SomeCloser), Error>;

    /// Whether `next` is a state that this step on `e` may leave.
    spec fn some_inner_state(&self, e: Self::SomeDecoder, next: Self) -> bool;

    fn decode_some_inner(&mut self, e: Self::SomeDecoder) -> (r: Result<
        (Self::AnyDecoder, Self::SomeCloser),
        Error,
    >)
        ensures
            r == old(self).some_inner_spec(e),
            old(self).some_inner_state(e, *final(self)),
            r is Ok ==> final(self).input_left() <= old(self).input_left(),
    ;

    /// What ending a present option gives in this state.
    spec fn some_end_spec(&self, p: Self::SomeCloser) -> Result<(), Error>;

    /// Whether `next` is a state that this step on `p` may leave.
    spec fn some_end_state(&self, p: Self::SomeCloser, next: Self) -> bool;

    fn decode_some_end(&mut self, p: Self::SomeCloser) -> (r: Result<(), Error>)
        ensures
            r == old(self).some_end_spec(p),
            old(self).some_end_state(p, *final(self)),
            r is Ok ==> final(self).input_left() <= old(self).input_left(),
    ;
}

/// The name of the kind of value that a view holds.
pub open spec fn view_kind<D: SpecDecoder>(v: SimpleDecoderView<D>) -> &'static str {
    match v {
        SimpleDecoderView::Primitive(p) => kind_name(type_of(p)),
        SimpleDecoderView::String(_) => "string",
        SimpleDecoderView::Bytes(_) => "bytes",
        SimpleDecoderView::OptionNone => "none",
        SimpleDecoderView::OptionSome(_) => "some",
        SimpleDecoderView::Sequence(_) => "seq",
        SimpleDecoderView::Mapping(_) => "map",
        SimpleDecoderView::Enum(_) => "enum",
    }
}

/// The result of reading a view as an identifier among `ids`: a number names
/// the identifier with that index, a string names the first identifier equal
/// to it (or none), and anything else is a type mismatch.
pub open spec fn spec_identifier<D: SpecDecoder>(v: SimpleDecoderView<D>, ids: Seq<&str>) -> Result<
    Option<usize>,
    Error,
> {
    match v {
        SimpleDecoderView::Primitive(p) => match spec_to_usize(p) {
            Ok(n) => Ok(Some(n)),
            Err(e) => Err(e),
        },
        SimpleDecoderView::String(s) => match first_index_of(names_view(ids), s@) {
            Some(i) => Ok(Some(i as usize)),
            None => Ok(None),
        },
        _ => Err(Error::TypeMismatch(TypeMismatch { found: view_kind(v), expected: "option" })),
    }
}

/// An identifier given by name is found by its text: the answer is the
/// first of `ids` with the same text as the name, and none when no id has
/// that text.
pub proof fn law_identifier_by_name<D: SpecDecoder>(s: String, ids: Seq<&str>)
    requires
        ids.len() <= usize::MAX,
    ensures
        match spec_identifier(SimpleDecoderView::<D>::String(s), ids) {
            Ok(Some(i)) => i < ids.len() && ids[i as int]@ == s@ && forall|j: int| 0 <= j < i ==> ids[j]@ != s@,
            Ok(None) => forall|j: int| 0 <= j < ids.len() ==> ids[j]@ != s@,
            Err(_) => false,
        },
{
    let names = names_view(ids);
    lemma_first_index_of(names, s@);
    assert(names.len() == ids.len());
    assert forall|j: int| 0 <= j < ids.len() implies #[trigger] names[j] == ids[j]@ by {}
    if let Some(k) = first_index_of(names, s@) {
        assert(0 <= k < ids.len());
        assert((k as usize) as int == k);
        assert forall|j: int| 0 <= j < k implies ids[j]@ != s@ by {
            assert(names[j] != s@);
        }
    } else {
        assert forall|j: int| 0 <= j < ids.len() implies ids[j]@ != s@ by {
            assert(names[j] != s@);
        }
    }
}

/// An identifier given by number is the number itself, whatever the ids: a
/// whole number that fits a `usize` comes back unchanged, and nothing else
/// is taken as an index.
pub proof fn law_identifier_by_index<D: SpecDecoder>(p: Primitive, ids: Seq<&str>)
    ensures
        spec_identifier(SimpleDecoderView::<D>::Primitive(p), ids) matches Ok(Some(n)) ==> integer_value(p) == Some(
            n as int,
        ),
        integer_value(p) matches Some(v) ==> 0 <= v <= usize::MAX ==> spec_identifier(
            SimpleDecoderView::<D>::Primitive(p),
            ids,
        ) == Ok::<Option<usize>, Error>(Some(v as usize)),
        !(spec_identifier(SimpleDecoderView::<D>::Primitive(p), ids) matches Ok(None)),
{
}

impl<D: SpecDecoder> SimpleDecoderView<D> {
    /// The name of the kind of value this view holds.
    pub fn kind(&self) -> (r: &'static str)
        ensures
            r == view_kind(*self),
    {
        match self {
            SimpleDecoderView::Primitive(p) => p.kind(),
            SimpleDecoderView::String(_) => "string",
            SimpleDecoderView::Bytes(_) => "bytes",
            SimpleDecoderView::OptionNone => "none",
            SimpleDecoderView::OptionSome(_) => "some",
            SimpleDecoderView::Sequence(_) => "seq",
            SimpleDecoderView::Mapping(_) => "map",
            SimpleDecoderView::Enum(_) => "enum",
        }
    }

    /// The error reported when this view is found where `expected` was wanted.
    pub fn mismatch(&self, expected: &'static str) -> (r: Error)
        ensures
            r == Error::TypeMismatch(TypeMismatch { found: view_kind(*self), expected }),
    {
        Error::TypeMismatch(TypeMismatch { found: self.kind(), expected })
    }

    /// Reads this view as an identifier among `ids`.
    pub fn try_into_identifier(self, ids: &'static [&'static str]) -> (r: Result<Option<usize>, Error>)
        ensures
            r == spec_identifier(self, ids@),
    {
        match self {
            SimpleDecoderView::Primitive(p) => match p.to_usize() {
                Ok(n) => Ok(Some(n)),
                Err(e) => Err(e),
            },
            SimpleDecoderView::String(s) => Ok(str_position(ids, s.as_str())),
            _ => Err(self.mismatch("option")),
        }
    }

    /// The sequence handle of this view, or a type mismatch.
    pub fn try_into_seq(self) -> (r: Result<D::SeqDecoder, Error>)
        ensures
            match self {
                SimpleDecoderView::Sequence(x) => r == Ok::<D::SeqDecoder, Error>(x),
                _ => r == Err::<D::SeqDecoder, Error>(
                    Error::TypeMismatch(TypeMismatch { found: view_kind(self), expected: "seq" }),
                ),
            },
    {
        match self {
            SimpleDecoderView::Sequence(x) => Ok(x),
            _ => Err(self.mismatch("seq")),
        }
    }

    /// The map handle of this view, or a type mismatch.
    pub fn try_into_map(self) -> (r: Result<D::MapDecoder, Error>)
        ensures
            match self {
                SimpleDecoderView::Mapping(x) => r == Ok::<D::MapDecoder, Error>(x),
                _ => r == Err::<D::MapDecoder, Error>(
                    Error::TypeMismatch(TypeMismatch { found: view_kind(self), expected: "map" }),
                ),
            },
    {
        match self {
            SimpleDecoderView::Mapping(x) => Ok(x),
            _ => Err(self.mismatch("map")),
        }
    }

    /// The string of this view, or a type mismatch.
    pub fn try_into_string(self) -> (r: Result<String, Error>)
        ensures
            match self {
                SimpleDecoderView::String(x) => r == Ok::<String, Error>(x),
                _ => r == Err::<String, Error>(
                    Error::TypeMismatch(TypeMismatch { found: view_kind(self), expected: "string" }),
                ),
            },
    {
        match self {
            SimpleDecoderView::String(x) => Ok(x),
            _ => Err(self.mismatch("string")),
        }
    }

    /// `None`, the handle of a present value, or a type mismatch.
    pub fn try_into_option(self) -> (r: Result<Option<D::SomeDecoder>, Error>)
        ensures
            match self {
                SimpleDecoderView::OptionNone => r == Ok::<Option<D::SomeDecoder>, Error>(None),
                SimpleDecoderView::OptionSome(x) => r == Ok::<Option<D::SomeDecoder>, Error>(Some(x)),
                _ => r == Err::<Option<D::SomeDecoder>, Error>(
                    Error::TypeMismatch(TypeMismatch { found: view_kind(self), expected: "option" }),
                ),
            },
    {
        match self {
            SimpleDecoderView::OptionNone => Ok(None),
            SimpleDecoderView::OptionSome(x) => Ok(Some(x)),
            _ => Err(self.mismatch("option")),
        }
    }

    /// The enum handle of this view, or a type mismatch.
    pub fn try_into_enum(self) -> (r: Result<D::DiscriminantDecoder, Error>)
        ensures
            match self {
                SimpleDecoderView::Enum(x) => r == Ok::<D::DiscriminantDecoder, Error>(x),
                _ => r == Err::<D::DiscriminantDecoder, Error>(
                    Error::TypeMismatch(TypeMismatch { found: view_kind(self), expected: "enum" }),
                ),
            },
    {
        match self {
            SimpleDecoderView::Enum(x) => Ok(x),
            _ => Err(self.mismatch("enum")),
        }
    }
}

} // verus!
