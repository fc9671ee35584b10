//! A decoder wrapper that bounds the nesting depth of the input: every handle
//! carries a remaining budget, each decoding step spends one unit of it, and
//! a step with no budget left fails with `OverflowError`.
use vstd::prelude::*;
use crate::decode::{DecodeHint, DecodeVariantHint, SimpleDecoderView, SpecDecoder};
use crate::error::{Error, OverflowError};

verus! {

pub struct DepthBudgetDecoder<D> {
    inner: D,
}

/// A handle of the inner decoder with the budget left to the value it decodes.
pub struct WithDepthBudget<T> {
    budget: usize,
    inner: T,
}

impl<T> WithDepthBudget<T> {
    pub closed spec fn budget(&self) -> usize {
        self.budget
    }

    pub closed spec fn inner(&self) -> T {
        self.inner
    }

    pub fn new(budget: usize, inner: T) -> (r: Self)
        ensures
            r.budget() == budget,
            r.inner() == inner,
    {
        WithDepthBudget { budget, inner }
    }
}

impl<D> DepthBudgetDecoder<D> {
    pub closed spec fn spec_inner(&self) -> D {
        self.inner
    }

    pub fn new(inner: D) -> (r: Self)
        ensures
            r.spec_inner() == inner,
    {
        DepthBudgetDecoder { inner }
    }

    pub fn inner(&self) -> (r: &D)
        ensures
            *r == self.spec_inner(),
    {
        &self.inner
    }

    pub fn inner_mut(&mut self) -> (r: &mut D)
        ensures
            *r == old(self).spec_inner(),
            final(self).spec_inner() == *final(r),
    {
        &mut self.inner
    }

    pub fn end(self) -> (r: Result<D, Error>)
        ensures
            r == Ok::<D, Error>(self.spec_inner()),
    {
        Ok(self.inner)
    }
}

/// Whether a view holds a nested handle.
pub open spec fn nests<D: SpecDecoder>(v: SimpleDecoderView<D>) -> bool {
    v is OptionSome || v is Sequence || v is Mapping || v is Enum
}

/// The view of the inner decoder that a view of the budget decoder wraps.
pub open spec fn budget_inner_view<D: SpecDecoder>(v: SimpleDecoderView<DepthBudgetDecoder<D>>) -> SimpleDecoderView<D> {
    match v {
        SimpleDecoderView::Primitive(p) => SimpleDecoderView::Primitive(p),
        SimpleDecoderView::String(x) => SimpleDecoderView::String(x),
        SimpleDecoderView::Bytes(x) => SimpleDecoderView::Bytes(x),
        SimpleDecoderView::OptionNone => SimpleDecoderView::OptionNone,
        SimpleDecoderView::OptionSome(w) => SimpleDecoderView::OptionSome(w.inner()),
        SimpleDecoderView::Sequence(w) => SimpleDecoderView::Sequence(w.inner()),
        SimpleDecoderView::Mapping(w) => SimpleDecoderView::Mapping(w.inner()),
        SimpleDecoderView::Enum(w) => SimpleDecoderView::Enum(w.inner()),
    }
}

/// The inner decoder's result that a result of the budget decoder wraps.
pub open spec fn budget_inner_result<D: SpecDecoder>(r: Result<SimpleDecoderView<DepthBudgetDecoder<D>>, Error>) -> Result<
    SimpleDecoderView<D>,
    Error,
> {
    match r {
        Ok(v) => Ok(budget_inner_view(v)),
        Err(e) => Err(e),
    }
}

/// The inner decoder's next entry that a next entry of the budget decoder
/// wraps.
pub open spec fn budget_inner_key<K>(r: Result<Option<WithDepthBudget<K>>, Error>) -> Result<Option<K>, Error> {
    match r {
        Ok(Some(k)) => Ok(Some(k.inner())),
        Ok(None) => Ok(None),
        Err(e) => Err(e),
    }
}

/// The inner decoder's payload and closer that those of the budget decoder
/// wrap.
pub open spec fn budget_inner_variant<D: SpecDecoder>(
    r: Result<(SimpleDecoderView<DepthBudgetDecoder<D>>, WithDepthBudget<D::EnumCloser>), Error>,
) -> Result<(SimpleDecoderView<D>, D::EnumCloser), Error> {
    match r {
        Ok((v, c)) => Ok((budget_inner_view(v), c.inner())),
        Err(e) => Err(e),
    }
}

impl<D: SpecDecoder> DepthBudgetDecoder<D> {
    /// Gives the nested handle of an inner view the budget `budget`.
    fn wrap_view(budget: usize, view: SimpleDecoderView<D>) -> (r: SimpleDecoderView<DepthBudgetDecoder<D>>)
        ensures
            nests(view) == (r is OptionSome || r is Sequence || r is Mapping || r is Enum),
            r matches SimpleDecoderView::OptionSome(w) ==> w.budget() == budget,
            r matches SimpleDecoderView::Sequence(w) ==> w.budget() == budget,
            r matches SimpleDecoderView::Mapping(w) ==> w.budget() == budget,
            r matches SimpleDecoderView::Enum(w) ==> w.budget() == budget,
            view matches SimpleDecoderView::OptionSome(x) ==> (r matches SimpleDecoderView::OptionSome(w) && w.inner() == x),
            view matches SimpleDecoderView::Sequence(x) ==> (r matches SimpleDecoderView::Sequence(w) && w.inner() == x),
            view matches SimpleDecoderView::Mapping(x) ==> (r matches SimpleDecoderView::Mapping(w) && w.inner() == x),
            view matches SimpleDecoderView::Enum(x) ==> (r matches SimpleDecoderView::Enum(w) && w.inner() == x),
            view matches SimpleDecoderView::Primitive(p) ==> r == SimpleDecoderView::<DepthBudgetDecoder<D>>::Primitive(p),
            view matches SimpleDecoderView::String(s) ==> r == SimpleDecoderView::<DepthBudgetDecoder<D>>::String(s),
            view matches SimpleDecoderView::Bytes(b) ==> r == SimpleDecoderView::<DepthBudgetDecoder<D>>::Bytes(b),
            view is OptionNone ==> r is OptionNone,
    {
        match view {
            SimpleDecoderView::Primitive(x) => SimpleDecoderView::Primitive(x),
            SimpleDecoderView::String(x) => SimpleDecoderView::String(x),
            SimpleDecoderView::Bytes(x) => SimpleDecoderView::Bytes(x),
            SimpleDecoderView::OptionNone => SimpleDecoderView::OptionNone,
            SimpleDecoderView::OptionSome(x) => SimpleDecoderView::OptionSome(WithDepthBudget::new(budget, x)),
            SimpleDecoderView::Sequence(x) => SimpleDecoderView::Sequence(WithDepthBudget::new(budget, x)),
            SimpleDecoderView::Mapping(x) => SimpleDecoderView::Mapping(WithDepthBudget::new(budget, x)),
            SimpleDecoderView::Enum(x) => SimpleDecoderView::Enum(WithDepthBudget::new(budget, x)),
        }
    }
}

impl<D: SpecDecoder> SpecDecoder for DepthBudgetDecoder<D> {
    type AnyDecoder = WithDepthBudget<D::AnyDecoder>;
    type SeqDecoder = WithDepthBudget<D::SeqDecoder>;
    type MapDecoder = WithDepthBudget<D::MapDecoder>;
    type KeyDecoder = WithDepthBudget<D::KeyDecoder>;
    type ValueDecoder = WithDepthBudget<D::ValueDecoder>;
    type DiscriminantDecoder = WithDepthBudget<D::DiscriminantDecoder>;
    type VariantDecoder = WithDepthBudget<D::VariantDecoder>;
    type EnumCloser = WithDepthBudget<D::EnumCloser>;
    type SomeDecoder = WithDepthBudget<D::SomeDecoder>;
    type SomeCloser = WithDepthBudget<D::SomeCloser>;

    open spec fn input_left(&self) -> nat {
        self.spec_inner().input_left()
    }

    open spec fn seq_left(seq: WithDepthBudget<D::SeqDecoder>) -> nat {
        D::seq_left(seq.inner())
    }

    open spec fn map_left(map: WithDepthBudget<D::MapDecoder>) -> nat {
        D::map_left(map.inner())
    }

    /// With no budget left nothing changes; otherwise the inner decoder takes
    /// the step.
    open spec fn decode_state(
        &self,
        any: WithDepthBudget<D::AnyDecoder>,
        hint: DecodeHint,
        r: Result<SimpleDecoderView<DepthBudgetDecoder<D>>, Error>,
        next: Self,
    ) -> bool {
        if any.budget() == 0 {
            next == *self
        } else {
            match r {
                Err(e) => self.spec_inner().decode_state(any.inner(), hint, Err(e), next.spec_inner()),
                Ok(v) => self.spec_inner().decode_state(any.inner(), hint, Ok(budget_inner_view(v)), next.spec_inner()),
            }
        }
    }

    open spec fn seq_next_state(
        &self,
        seq: WithDepthBudget<D::SeqDecoder>,
        seq_after: WithDepthBudget<D::SeqDecoder>,
        next: Self,
    ) -> bool {
        seq_after.budget() == seq.budget() && self.spec_inner().seq_next_state(seq.inner(), seq_after.inner(), next.spec_inner())
    }

    open spec fn seq_end_state(&self, seq: WithDepthBudget<D::SeqDecoder>, next: Self) -> bool {
        self.spec_inner().seq_end_state(seq.inner(), next.spec_inner())
    }

    open spec fn map_next_state(
        &self,
        map: WithDepthBudget<D::MapDecoder>,
        map_after: WithDepthBudget<D::MapDecoder>,
        r: Result<Option<WithDepthBudget<D::KeyDecoder>>, Error>,
        next: Self,
    ) -> bool {
        &&& map_after.budget() == map.budget()
        &&& match r {
            Ok(Some(k)) => self.spec_inner().map_next_state(map.inner(), map_after.inner(), Ok(Some(k.inner())), next.spec_inner()),
            Ok(None) => self.spec_inner().map_next_state(map.inner(), map_after.inner(), Ok(None), next.spec_inner()),
            Err(e) => self.spec_inner().map_next_state(map.inner(), map_after.inner(), Err(e), next.spec_inner()),
        }
    }

    open spec fn map_end_state(&self, map: WithDepthBudget<D::MapDecoder>, next: Self) -> bool {
        self.spec_inner().map_end_state(map.inner(), next.spec_inner())
    }

    open spec fn entry_key_state(&self, key: WithDepthBudget<D::KeyDecoder>, next: Self) -> bool {
        self.spec_inner().entry_key_state(key.inner(), next.spec_inner())
    }

    open spec fn entry_value_state(&self, value: WithDepthBudget<D::ValueDecoder>, next: Self) -> bool {
        self.spec_inner().entry_value_state(value.inner(), next.spec_inner())
    }

    open spec fn enum_discriminant_state(&self, disc: WithDepthBudget<D::DiscriminantDecoder>, next: Self) -> bool {
        self.spec_inner().enum_discriminant_state(disc.inner(), next.spec_inner())
    }

    open spec fn enum_variant_state(
        &self,
        variant: WithDepthBudget<D::VariantDecoder>,
        hint: DecodeVariantHint,
        r: Result<(SimpleDecoderView<DepthBudgetDecoder<D>>, WithDepthBudget<D::EnumCloser>), Error>,
        next: Self,
    ) -> bool {
        match r {
            Err(e) => self.spec_inner().enum_variant_state(variant.inner(), hint, Err(e), next.spec_inner()),
            Ok((v, c)) => self.spec_inner().enum_variant_state(variant.inner(), hint, Ok((budget_inner_view(v), c.inner())), next.spec_inner()),
        }
    }

    open spec fn enum_end_state(&self, closer: WithDepthBudget<D::EnumCloser>, next: Self) -> bool {
        self.spec_inner().enum_end_state(closer.inner(), next.spec_inner())
    }

    open spec fn some_inner_state(&self, some: WithDepthBudget<D::SomeDecoder>, next: Self) -> bool {
        self.spec_inner().some_inner_state(some.inner(), next.spec_inner())
    }

    open spec fn some_end_state(&self, closer: WithDepthBudget<D::SomeCloser>, next: Self) -> bool {
        self.spec_inner().some_end_state(closer.inner(), next.spec_inner())
    }

    open spec fn decode_spec(
        &self,
        any: WithDepthBudget<D::AnyDecoder>,
        hint: DecodeHint,
        r: Result<SimpleDecoderView<DepthBudgetDecoder<D>>, Error>,
    ) -> bool {
        if any.budget() == 0 {
            r == Err::<SimpleDecoderView<DepthBudgetDecoder<D>>, Error>(Error::Overflow(OverflowError))
        } else {
            match r {
                Err(e) => self.spec_inner().decode_spec(any.inner(), hint, Err(e)),
                Ok(v) => exists|v0: SimpleDecoderView<D>|
                    #[trigger] self.spec_inner().decode_spec(any.inner(), hint, Ok(v0)) && match (v0, v) {
                        (SimpleDecoderView::Primitive(a), SimpleDecoderView::Primitive(b)) => a == b,
                        (SimpleDecoderView::String(a), SimpleDecoderView::String(b)) => a == b,
                        (SimpleDecoderView::Bytes(a), SimpleDecoderView::Bytes(b)) => a == b,
                        (SimpleDecoderView::OptionNone, SimpleDecoderView::OptionNone) => true,
                        (SimpleDecoderView::OptionSome(a), SimpleDecoderView::OptionSome(b)) => b.inner() == a && b.budget() == any.budget() - 1,
                        (SimpleDecoderView::Sequence(a), SimpleDecoderView::Sequence(b)) => b.inner() == a && b.budget() == any.budget() - 1,
                        (SimpleDecoderView::Mapping(a), SimpleDecoderView::Mapping(b)) => b.inner() == a && b.budget() == any.budget() - 1,
                        (SimpleDecoderView::Enum(a), SimpleDecoderView::Enum(b)) => b.inner() == a && b.budget() == any.budget() - 1,
                        _ => false,
                    },
            }
        }
    }

    /// Spends one unit of the handle's budget: with none left the step fails
    /// before the inner decoder is asked; otherwise the nested handle of the
    /// result, if any, gets what is left.
    fn decode(&mut self, any: Self::AnyDecoder, hint: DecodeHint) -> (r: Result<
        SimpleDecoderView<Self>,
        Error,
    >)
        ensures
            any.budget() > 0 ==> old(self).spec_inner().decode_spec(any.inner(), hint, budget_inner_result(r)),
            any.budget() > 0 ==> old(self).spec_inner().decode_state(any.inner(), hint, budget_inner_result(r), final(self).spec_inner()),
            any.budget() == 0 ==> r == Err::<SimpleDecoderView<Self>, Error>(Error::Overflow(OverflowError))
                && *final(self) == *old(self),
            r matches Ok(v) ==> any.budget() > 0
                && (v matches SimpleDecoderView::OptionSome(w) ==> w.budget() == any.budget() - 1)
                && (v matches SimpleDecoderView::Sequence(w) ==> w.budget() == any.budget() - 1)
                && (v matches SimpleDecoderView::Mapping(w) ==> w.budget() == any.budget() - 1)
                && (v matches SimpleDecoderView::Enum(w) ==> w.budget() == any.budget() - 1),
    {
        if any.budget == 0 {
            return Err(Error::Overflow(OverflowError));
        }
        let budget = any.budget - 1;
        let ghost any0 = any;
        let view = self.inner.decode(any.inner, hint)?;
        assert(old(self).spec_inner().decode_spec(any0.inner(), hint, Ok::<SimpleDecoderView<D>, Error>(view)));
        Ok(Self::wrap_view(budget, view))
    }

    open spec fn human_readable_spec(&self) -> bool {
        self.spec_inner().human_readable_spec()
    }

    fn is_human_readable(&self) -> (r: bool) {
        self.inner.is_human_readable()
    }

    open spec fn seq_exact_size_spec(&self, seq: WithDepthBudget<D::SeqDecoder>) -> Option<usize> {
        self.spec_inner().seq_exact_size_spec(seq.inner())
    }

    open spec fn map_exact_size_spec(&self, map: WithDepthBudget<D::MapDecoder>) -> Option<usize> {
        self.spec_inner().map_exact_size_spec(map.inner())
    }

    /// Elements inherit the budget of their sequence.
    closed spec fn seq_next_spec(&self, seq: WithDepthBudget<D::SeqDecoder>) -> Result<
        Option<WithDepthBudget<D::AnyDecoder>>,
        Error,
    > {
        match self.inner.seq_next_spec(seq.inner) {
            Ok(Some(a)) => Ok(Some(WithDepthBudget { budget: seq.budget, inner: a })),
            Ok(None) => Ok(None),
            Err(e) => Err(e),
        }
    }

    fn decode_seq_next(&mut self, seq: &mut Self::SeqDecoder) -> (r: Result<
        Option<Self::AnyDecoder>,
        Error,
    >)
        ensures
            match old(self).spec_inner().seq_next_spec(old(seq).inner()) {
                Ok(Some(a)) => r matches Ok(Some(x)) && x.inner() == a,
                Ok(None) => r matches Ok(None),
                Err(e) => r matches Err(e2) && e2 == e,
            },
            old(self).spec_inner().seq_next_state(old(seq).inner(), final(seq).inner(), final(self).spec_inner()),
            final(seq).budget() == old(seq).budget(),
            r matches Ok(Some(x)) ==> x.budget() == old(seq).budget(),
    {
        match self.inner.decode_seq_next(&mut seq.inner)? {
            Some(next) => Ok(Some(WithDepthBudget::new(seq.budget, next))),
            None => Ok(None),
        }
    }

    fn decode_seq_exact_size(&self, seq: &Self::SeqDecoder) -> (r: Option<usize>) {
        self.inner.decode_seq_exact_size(&seq.inner)
    }

    open spec fn seq_end_spec(&self, seq: WithDepthBudget<D::SeqDecoder>) -> Result<(), Error> {
        self.spec_inner().seq_end_spec(seq.inner())
    }

    open spec fn map_end_spec(&self, map: WithDepthBudget<D::MapDecoder>) -> Result<(), Error> {
        self.spec_inner().map_end_spec(map.inner())
    }

    open spec fn enum_end_spec(&self, closer: WithDepthBudget<D::EnumCloser>) -> Result<(), Error> {
        self.spec_inner().enum_end_spec(closer.inner())
    }

    open spec fn some_end_spec(&self, closer: WithDepthBudget<D::SomeCloser>) -> Result<(), Error> {
        self.spec_inner().some_end_spec(closer.inner())
    }

    fn decode_seq_end(&mut self, seq: Self::SeqDecoder) -> (r: Result<(), Error>)
        ensures
            r == old(self).spec_inner().seq_end_spec(seq.inner()),
            old(self).spec_inner().seq_end_state(seq.inner(), final(self).spec_inner()),
    {
        self.inner.decode_seq_end(seq.inner)
    }

    open spec fn map_next_spec(
        &self,
        map: WithDepthBudget<D::MapDecoder>,
        r: Result<Option<WithDepthBudget<D::KeyDecoder>>, Error>,
    ) -> bool {
        match r {
            Ok(Some(k)) => k.budget() == map.budget() && self.spec_inner().map_next_spec(map.inner(), Ok(Some(k.inner()))),
            Ok(None) => self.spec_inner().map_next_spec(map.inner(), Ok(None)),
            Err(e) => self.spec_inner().map_next_spec(map.inner(), Err(e)),
        }
    }

    /// Entries inherit the budget of their map.
    fn decode_map_next(&mut self, map: &mut Self::MapDecoder) -> (r: Result<
        Option<Self::KeyDecoder>,
        Error,
    >)
        ensures
            old(self).spec_inner().map_next_spec(old(map).inner(), budget_inner_key(r)),
            old(self).spec_inner().map_next_state(old(map).inner(), final(map).inner(), budget_inner_key(r), final(self).spec_inner()),
            final(map).budget() == old(map).budget(),
            r matches Ok(Some(x)) ==> x.budget() == old(map).budget(),
    {
        match self.inner.decode_map_next(&mut map.inner)? {
            Some(next) => Ok(Some(WithDepthBudget::new(map.budget, next))),
            None => Ok(None),
        }
    }

    fn decode_map_exact_size(&self, map: &Self::MapDecoder) -> (r: Option<usize>) {
        self.inner.decode_map_exact_size(&map.inner)
    }

    fn decode_map_end(&mut self, map: Self::MapDecoder) -> (r: Result<(), Error>)
        ensures
            r == old(self).spec_inner().map_end_spec(map.inner()),
            old(self).spec_inner().map_end_state(map.inner(), final(self).spec_inner()),
    {
        self.inner.decode_map_end(map.inner)
    }

    closed spec fn entry_key_spec(&self, key: WithDepthBudget<D::KeyDecoder>) -> Result<
        (WithDepthBudget<D::AnyDecoder>, WithDepthBudget<D::ValueDecoder>),
        Error,
    > {
        match self.inner.entry_key_spec(key.inner) {
            Ok((a, v)) => Ok((WithDepthBudget { budget: key.budget, inner: a }, WithDepthBudget { budget: key.budget, inner: v })),
            Err(e) => Err(e),
        }
    }

    closed spec fn entry_value_spec(&self, value: WithDepthBudget<D::ValueDecoder>) -> Result<
        WithDepthBudget<D::AnyDecoder>,
        Error,
    > {
        match self.inner.entry_value_spec(value.inner) {
            Ok(a) => Ok(WithDepthBudget { budget: value.budget, inner: a }),
            Err(e) => Err(e),
        }
    }

    closed spec fn enum_discriminant_spec(&self, disc: WithDepthBudget<D::DiscriminantDecoder>) -> Result<
        (WithDepthBudget<D::AnyDecoder>, WithDepthBudget<D::VariantDecoder>),
        Error,
    > {
        match self.inner.enum_discriminant_spec(disc.inner) {
            Ok((a, v)) => Ok((WithDepthBudget { budget: disc.budget, inner: a }, WithDepthBudget { budget: disc.budget, inner: v })),
            Err(e) => Err(e),
        }
    }

    closed spec fn some_inner_spec(&self, some: WithDepthBudget<D::SomeDecoder>) -> Result<
        (WithDepthBudget<D::AnyDecoder>, WithDepthBudget<D::SomeCloser>),
        Error,
    > {
        match self.inner.some_inner_spec(some.inner) {
            Ok((a, c)) => Ok((WithDepthBudget { budget: some.budget, inner: a }, WithDepthBudget { budget: some.budget, inner: c })),
            Err(e) => Err(e),
        }
    }

    /// Key and value inherit the budget of their entry.
    fn decode_entry_key(&mut self, key: Self::KeyDecoder) -> (r: Result<
        (Self::AnyDecoder, Self::ValueDecoder),
        Error,
    >)
        ensures
            match old(self).spec_inner().entry_key_spec(key.inner()) {
                Ok((a, v)) => r matches Ok((x, y)) && x.inner() == a && y.inner() == v && x.budget() == key.budget()
                    && y.budget() == key.budget(),
                Err(e) => r matches Err(e2) && e2 == e,
            },
            old(self).spec_inner().entry_key_state(key.inner(), final(self).spec_inner()),
            r matches Ok((k, v)) ==> k.budget() == key.budget() && v.budget() == key.budget(),
    {
        let (any, value) = self.inner.decode_entry_key(key.inner)?;
        Ok((WithDepthBudget::new(key.budget, any), WithDepthBudget::new(key.budget, value)))
    }

    fn decode_entry_value(&mut self, value: Self::ValueDecoder) -> (r: Result<Self::AnyDecoder, Error>)
        ensures
            match old(self).spec_inner().entry_value_spec(value.inner()) {
                Ok(a) => r matches Ok(x) && x.inner() == a && x.budget() == value.budget(),
                Err(e) => r matches Err(e2) && e2 == e,
            },
            old(self).spec_inner().entry_value_state(value.inner(), final(self).spec_inner()),
            r matches Ok(x) ==> x.budget() == value.budget(),
    {
        let budget = value.budget;
        let any = self.inner.decode_entry_value(value.inner)?;
        Ok(WithDepthBudget::new(budget, any))
    }

    /// Discriminant and variant inherit the budget of their enum.
    fn decode_enum_discriminant(&mut self, disc: Self::DiscriminantDecoder) -> (r: Result<
        (Self::AnyDecoder, Self::VariantDecoder),
        Error,
    >)
        ensures
            match old(self).spec_inner().enum_discriminant_spec(disc.inner()) {
                Ok((a, v)) => r matches Ok((x, y)) && x.inner() == a && y.inner() == v && x.budget() == disc.budget()
                    && y.budget() == disc.budget(),
                Err(e) => r matches Err(e2) && e2 == e,
            },
            old(self).spec_inner().enum_discriminant_state(disc.inner(), final(self).spec_inner()),
            r matches Ok((d, v)) ==> d.budget() == disc.budget() && v.budget() == disc.budget(),
    {
        let (any, variant) = self.inner.decode_enum_discriminant(disc.inner)?;
        Ok((WithDepthBudget::new(disc.budget, any), WithDepthBudget::new(disc.budget, variant)))
    }

    open spec fn enum_variant_spec(
        &self,
        variant: WithDepthBudget<D::VariantDecoder>,
        hint: DecodeVariantHint,
        r: Result<(SimpleDecoderView<DepthBudgetDecoder<D>>, WithDepthBudget<D::EnumCloser>), Error>,
    ) -> bool {
        match r {
            Err(e) => self.spec_inner().enum_variant_spec(variant.inner(), hint, Err(e)),
            Ok((v, c)) => c.budget() == variant.budget() && exists|v0: SimpleDecoderView<D>|
                #[trigger] self.spec_inner().enum_variant_spec(variant.inner(), hint, Ok((v0, c.inner()))) && match (v0, v) {
                    (SimpleDecoderView::Primitive(a), SimpleDecoderView::Primitive(b)) => a == b,
                    (SimpleDecoderView::String(a), SimpleDecoderView::String(b)) => a == b,
                    (SimpleDecoderView::Bytes(a), SimpleDecoderView::Bytes(b)) => a == b,
                    (SimpleDecoderView::OptionNone, SimpleDecoderView::OptionNone) => true,
                    (SimpleDecoderView::OptionSome(a), SimpleDecoderView::OptionSome(b)) => b.inner() == a && b.budget() == variant.budget(),
                    (SimpleDecoderView::Sequence(a), SimpleDecoderView::Sequence(b)) => b.inner() == a && b.budget() == variant.budget(),
                    (SimpleDecoderView::Mapping(a), SimpleDecoderView::Mapping(b)) => b.inner() == a && b.budget() == variant.budget(),
                    (SimpleDecoderView::Enum(a), SimpleDecoderView::Enum(b)) => b.inner() == a && b.budget() == variant.budget(),
                    _ => false,
                },
        }
    }

    /// The payload of a variant inherits the budget of its variant handle.
    fn decode_enum_variant(&mut self, variant: Self::VariantDecoder, hint: DecodeVariantHint) -> (r: Result<
        (SimpleDecoderView<Self>, Self::EnumCloser),
        Error,
    >)
        ensures
            old(self).spec_inner().enum_variant_spec(variant.inner(), hint, budget_inner_variant(r)),
            old(self).spec_inner().enum_variant_state(variant.inner(), hint, budget_inner_variant(r), final(self).spec_inner()),
            r matches Ok((v, c)) ==> c.budget() == variant.budget()
                && (v matches SimpleDecoderView::OptionSome(w) ==> w.budget() == variant.budget())
                && (v matches SimpleDecoderView::Sequence(w) ==> w.budget() == variant.budget())
                && (v matches SimpleDecoderView::Mapping(w) ==> w.budget() == variant.budget())
                && (v matches SimpleDecoderView::Enum(w) ==> w.budget() == variant.budget()),
    {
        let budget = variant.budget;
        let ghost variant0 = variant;
        let (view, closer) = self.inner.decode_enum_variant(variant.inner, hint)?;
        let ghost inner_result = (view, closer);
        assert(old(self).spec_inner().enum_variant_spec(variant0.inner(), hint, Ok::<(SimpleDecoderView<D>, D::EnumCloser), Error>(inner_result)));
        let wrapped = Self::wrap_view(budget, view);
        let closer = WithDepthBudget::new(budget, closer);
        assert(budget_inner_view(wrapped) == view);
        Ok((wrapped, closer))
    }

    fn decode_enum_end(&mut self, closer: Self::EnumCloser) -> (r: Result<(), Error>)
        ensures
            r == old(self).spec_inner().enum_end_spec(closer.inner()),
            old(self).spec_inner().enum_end_state(closer.inner(), final(self).spec_inner()),
    {
        self.inner.decode_enum_end(closer.inner)
    }

    /// The present value inherits the budget of its option.
    fn decode_some_inner(&mut self, some: Self::SomeDecoder) -> (r: Result<
        (Self::AnyDecoder, Self::SomeCloser),
        Error,
    >)
        ensures
            match old(self).spec_inner().some_inner_spec(some.inner()) {
                Ok((a, v)) => r matches Ok((x, y)) && x.inner() == a && y.inner() == v && x.budget() == some.budget()
                    && y.budget() == some.budget(),
                Err(e) => r matches Err(e2) && e2 == e,
            },
            old(self).spec_inner().some_inner_state(some.inner(), final(self).spec_inner()),
            r matches Ok((d, c)) ==> d.budget() == some.budget() && c.budget() == some.budget(),
    {
        let (any, closer) = self.inner.decode_some_inner(some.inner)?;
        Ok((WithDepthBudget::new(some.budget, any), WithDepthBudget::new(some.budget, closer)))
    }

    fn decode_some_end(&mut self, closer: Self::SomeCloser) -> (r: Result<(), Error>)
        ensures
            r == old(self).spec_inner().some_end_spec(closer.inner()),
            old(self).spec_inner().some_end_state(closer.inner(), final(self).spec_inner()),
    {
        self.inner.decode_some_end(closer.inner)
    }
}

/// The depth limit: decoding a value spends one unit of its handle's budget.
/// A handle with no budget left is refused with the overflow error and the
/// decoder is left as it was; otherwise the inner decoder takes the step on
/// the handle it wraps, and a nested handle in the result gets the budget
/// less one.
pub proof fn lemma_decode_spends_budget<D: SpecDecoder>(
    d: DepthBudgetDecoder<D>,
    any: WithDepthBudget<D::AnyDecoder>,
    hint: DecodeHint,
    r: Result<SimpleDecoderView<DepthBudgetDecoder<D>>, Error>,
    next: DepthBudgetDecoder<D>,
)
    requires
        d.decode_spec(any, hint, r),
        d.decode_state(any, hint, r, next),
    ensures
        any.budget() == 0 ==> r == Err::<SimpleDecoderView<DepthBudgetDecoder<D>>, Error>(Error::Overflow(OverflowError))
            && next == d,
        any.budget() > 0 ==> d.spec_inner().decode_spec(any.inner(), hint, budget_inner_result(r))
            && d.spec_inner().decode_state(any.inner(), hint, budget_inner_result(r), next.spec_inner()),
        r matches Ok(SimpleDecoderView::OptionSome(w)) ==> w.budget() == any.budget() - 1,
        r matches Ok(SimpleDecoderView::Sequence(w)) ==> w.budget() == any.budget() - 1,
        r matches Ok(SimpleDecoderView::Mapping(w)) ==> w.budget() == any.budget() - 1,
        r matches Ok(SimpleDecoderView::Enum(w)) ==> w.budget() == any.budget() - 1,
{
    if any.budget() > 0 {
        if let Ok(v) = r {
            let v0 = choose|v0: SimpleDecoderView<D>|
                #[trigger] d.spec_inner().decode_spec(any.inner(), hint, Ok(v0)) && match (v0, v) {
                    (SimpleDecoderView::Primitive(a), SimpleDecoderView::Primitive(b)) => a == b,
                    (SimpleDecoderView::String(a), SimpleDecoderView::String(b)) => a == b,
                    (SimpleDecoderView::Bytes(a), SimpleDecoderView::Bytes(b)) => a == b,
                    (SimpleDecoderView::OptionNone, SimpleDecoderView::OptionNone) => true,
                    (SimpleDecoderView::OptionSome(a), SimpleDecoderView::OptionSome(b)) => b.inner() == a && b.budget() == any.budget() - 1,
                    (SimpleDecoderView::Sequence(a), SimpleDecoderView::Sequence(b)) => b.inner() == a && b.budget() == any.budget() - 1,
                    (SimpleDecoderView::Mapping(a), SimpleDecoderView::Mapping(b)) => b.inner() == a && b.budget() == any.budget() - 1,
                    (SimpleDecoderView::Enum(a), SimpleDecoderView::Enum(b)) => b.inner() == a && b.budget() == any.budget() - 1,
                    _ => false,
                };
            assert(budget_inner_view(v) == v0);
        }
    }
}

/// The handles inside a container keep the container's budget: the next
/// element of a sequence, the key and value of a map entry, the payload of
/// an option and the discriminant and variant of an enum each wrap the inner
/// decoder's handle with the budget of the handle they came from.
pub proof fn lemma_budget_inherited<D: SpecDecoder>(
    d: DepthBudgetDecoder<D>,
    seq: WithDepthBudget<D::SeqDecoder>,
    key: WithDepthBudget<D::KeyDecoder>,
    value: WithDepthBudget<D::ValueDecoder>,
    some: WithDepthBudget<D::SomeDecoder>,
    disc: WithDepthBudget<D::DiscriminantDecoder>,
)
    ensures
        budget_inner_key(d.seq_next_spec(seq)) == d.spec_inner().seq_next_spec(seq.inner()),
        d.seq_next_spec(seq) matches Ok(Some(a)) ==> a.budget() == seq.budget(),
        match (d.entry_key_spec(key), d.spec_inner().entry_key_spec(key.inner())) {
            (Ok((a, v)), Ok((a0, v0))) => a.inner() == a0 && v.inner() == v0 && a.budget() == key.budget() && v.budget() == key.budget(),
            (Err(e), Err(e0)) => e == e0,
            _ => false,
        },
        match (d.entry_value_spec(value), d.spec_inner().entry_value_spec(value.inner())) {
            (Ok(a), Ok(a0)) => a.inner() == a0 && a.budget() == value.budget(),
            (Err(e), Err(e0)) => e == e0,
            _ => false,
        },
        match (d.some_inner_spec(some), d.spec_inner().some_inner_spec(some.inner())) {
            (Ok((a, c)), Ok((a0, c0))) => a.inner() == a0 && c.inner() == c0 && a.budget() == some.budget() && c.budget() == some.budget(),
            (Err(e), Err(e0)) => e == e0,
            _ => false,
        },
        match (d.enum_discriminant_spec(disc), d.spec_inner().enum_discriminant_spec(disc.inner())) {
            (Ok((a, v)), Ok((a0, v0))) => a.inner() == a0 && v.inner() == v0 && a.budget() == disc.budget() && v.budget() == disc.budget(),
            (Err(e), Err(e0)) => e == e0,
            _ => false,
        },
{
}

} // verus!
