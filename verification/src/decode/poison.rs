//! A decoder wrapper that checks that the nested handles are used in order.
//!
//! Every handle carries the depth at which it was made; an operation is only
//! accepted on a handle whose depth is the decoder's current depth.  Taking a
//! handle (pop) lowers the depth, making one (push) raises it, so a handle
//! that was abandoned, or one used after a nested handle was opened and not
//! finished, is refused with `UnexpectedDecodeState`.
use vstd::prelude::*;
use crate::decode::{DecodeHint, DecodeVariantHint, SimpleDecoderView, SpecDecoder};
use crate::error::{DecodePoisonError, Error};

pub use crate::error::DecodePoisonError as PoisonError;

verus! {

pub struct PoisonDecoder<D> {
    inner: D,
    depth: usize,
}

/// A handle of the inner decoder, tagged with the depth it was made at.
pub struct PoisonWrapper<T> {
    inner: T,
    depth: usize,
}

pub open spec fn poison_error() -> Error {
    Error::DecodePoison(DecodePoisonError::UnexpectedDecodeState)
}

impl<T> PoisonWrapper<T> {
    /// Handles are only made one level below the top, so their depth is positive.
    #[verifier::type_invariant]
    spec fn made_by_push(&self) -> bool {
        self.depth >= 1
    }

    pub closed spec fn depth(&self) -> usize {
        self.depth
    }

    pub closed spec fn inner(&self) -> T {
        self.inner
    }
}

/// Whether a view holds a nested handle.
pub open spec fn view_nests<D: SpecDecoder>(v: SimpleDecoderView<D>) -> bool {
    match v {
        SimpleDecoderView::OptionSome(_) => true,
        SimpleDecoderView::Sequence(_) => true,
        SimpleDecoderView::Mapping(_) => true,
        SimpleDecoderView::Enum(_) => true,
        _ => false,
    }
}

/// The view of the inner decoder that a view of the poison decoder wraps.
pub open spec fn inner_view<D: SpecDecoder>(v: SimpleDecoderView<PoisonDecoder<D>>) -> SimpleDecoderView<D> {
    match v {
        SimpleDecoderView::Primitive(p) => SimpleDecoderView::Primitive(p),
        SimpleDecoderView::String(x) => SimpleDecoderView::String(x),
        SimpleDecoderView::Bytes(x) => SimpleDecoderView::Bytes(x),
        SimpleDecoderView::OptionNone => SimpleDecoderView::OptionNone,
        SimpleDecoderView::OptionSome(w) => SimpleDecoderView::OptionSome(w.inner()),
        SimpleDecoderView::Sequence(w) => SimpleDecoderView::Sequence(w.inner()),
        SimpleDecoderView::Mapping(w) => SimpleDecoderView::Mapping(w.inner()),
        SimpleDecoderView::Enum(w) => SimpleDecoderView::Enum(w.inner()),
    }
}

fn lend<T>(x: &mut T) -> (r: &mut T)
    ensures
        *r == *old(x),
        *final(x) == *final(r),
    no_unwind
{
    x
}

impl<D> PoisonDecoder<D> {
    /// The current depth: the number of handles that are open.
    pub closed spec fn depth(&self) -> usize {
        self.depth
    }

    /// The wrapped decoder.
    pub closed spec fn inner(&self) -> D {
        self.inner
    }

    pub fn new(inner: D) -> (r: Self)
        ensures
            r.depth() == 0,
            r.inner() == inner,
    {
        PoisonDecoder { inner, depth: 0 }
    }

    /// Wraps the first handle of a message.
    pub fn start<T>(&mut self, inner: T) -> (r: PoisonWrapper<T>)
        requires
            old(self).depth() < usize::MAX,
        ensures
            final(self).depth() == old(self).depth() + 1,
            final(self).inner() == old(self).inner(),
            r.depth() == final(self).depth(),
            r.inner() == inner,
    {
        self.push(inner)
    }

    /// Gives back the inner decoder; refused while a handle is still open.
    pub fn end(self) -> (r: Result<D, Error>)
        ensures
            self.depth() == 0 ==> r == Ok::<D, Error>(self.inner()),
            self.depth() != 0 ==> r == Err::<D, Error>(poison_error()),
    {
        if self.depth == 0 {
            Ok(self.inner)
        } else {
            Err(Error::DecodePoison(DecodePoisonError::UnexpectedDecodeState))
        }
    }

    /// Opens a handle one level deeper.
    pub fn push<T>(&mut self, inner: T) -> (r: PoisonWrapper<T>)
        requires
            old(self).depth() < usize::MAX,
        ensures
            final(self).depth() == old(self).depth() + 1,
            final(self).inner() == old(self).inner(),
            r.depth() == final(self).depth(),
            r.inner() == inner,
    {
        self.depth = self.depth + 1;
        PoisonWrapper { depth: self.depth, inner }
    }

    /// Takes the handle at the current depth, closing that level.
    pub fn pop<T>(&mut self, wrapper: PoisonWrapper<T>) -> (r: Result<T, Error>)
        ensures
            wrapper.depth() == old(self).depth() ==> r == Ok::<T, Error>(wrapper.inner())
                && final(self).depth() == old(self).depth() - 1,
            wrapper.depth() != old(self).depth() ==> r == Err::<T, Error>(poison_error())
                && final(self).depth() == old(self).depth(),
            final(self).inner() == old(self).inner(),
    {
        proof {
            use_type_invariant(&wrapper);
        }
        if wrapper.depth == self.depth {
            self.depth = self.depth - 1;
            Ok(wrapper.inner)
        } else {
            Err(Error::DecodePoison(DecodePoisonError::UnexpectedDecodeState))
        }
    }

    /// Checks that a handle is at the current depth and lends its content.
    pub fn peek<'a, T>(&self, wrapper: &'a mut PoisonWrapper<T>) -> (r: Result<&'a mut T, Error>)
        ensures
            old(wrapper).depth() == self.depth() <==> r is Ok,
            final(wrapper).depth() == old(wrapper).depth(),
            r is Err ==> r == Err::<&mut T, Error>(poison_error()) && final(wrapper).inner() == old(wrapper).inner(),
            r matches Ok(x) ==> *x == old(wrapper).inner() && final(wrapper).inner() == *final(x),
    {
        proof {
            use_type_invariant(&*wrapper);
        }
        if wrapper.depth == self.depth {
            Ok(lend(&mut wrapper.inner))
        } else {
            Err(Error::DecodePoison(DecodePoisonError::UnexpectedDecodeState))
        }
    }
}


impl<D: SpecDecoder> PoisonDecoder<D> {
    /// Wraps the nested handle of an inner view, one level deeper.
    fn wrap_view(&mut self, view: SimpleDecoderView<D>) -> (r: SimpleDecoderView<PoisonDecoder<D>>)
        requires
            old(self).depth() < usize::MAX,
        ensures
            view_nests(view) == (r is OptionSome || r is Sequence || r is Mapping || r is Enum),
            final(self).depth() == old(self).depth() + (if view_nests(view) { 1int } else { 0int }),
            r matches SimpleDecoderView::OptionSome(w) ==> w.depth() == final(self).depth(),
            r matches SimpleDecoderView::Sequence(w) ==> w.depth() == final(self).depth(),
            r matches SimpleDecoderView::Mapping(w) ==> w.depth() == final(self).depth(),
            r matches SimpleDecoderView::Enum(w) ==> w.depth() == final(self).depth(),
            final(self).inner() == old(self).inner(),
            view matches SimpleDecoderView::Primitive(p) ==> r == SimpleDecoderView::<PoisonDecoder<D>>::Primitive(p),
            view matches SimpleDecoderView::String(s) ==> r == SimpleDecoderView::<PoisonDecoder<D>>::String(s),
            view matches SimpleDecoderView::Bytes(b) ==> r == SimpleDecoderView::<PoisonDecoder<D>>::Bytes(b),
            view is OptionNone ==> r is OptionNone,
            view matches SimpleDecoderView::OptionSome(x) ==> (r matches SimpleDecoderView::OptionSome(w) && w.inner() == x),
            view matches SimpleDecoderView::Sequence(x) ==> (r matches SimpleDecoderView::Sequence(w) && w.inner() == x),
            view matches SimpleDecoderView::Mapping(x) ==> (r matches SimpleDecoderView::Mapping(w) && w.inner() == x),
            view matches SimpleDecoderView::Enum(x) ==> (r matches SimpleDecoderView::Enum(w) && w.inner() == x),
    {
        match view {
            SimpleDecoderView::Primitive(x) => SimpleDecoderView::Primitive(x),
            SimpleDecoderView::String(x) => SimpleDecoderView::String(x),
            SimpleDecoderView::Bytes(x) => SimpleDecoderView::Bytes(x),
            SimpleDecoderView::OptionNone => SimpleDecoderView::OptionNone,
            SimpleDecoderView::OptionSome(x) => SimpleDecoderView::OptionSome(self.push(x)),
            SimpleDecoderView::Sequence(x) => SimpleDecoderView::Sequence(self.push(x)),
            SimpleDecoderView::Mapping(x) => SimpleDecoderView::Mapping(self.push(x)),
            SimpleDecoderView::Enum(x) => SimpleDecoderView::Enum(self.push(x)),
        }
    }
}

/// The inner decoder's result that a result of the poison decoder wraps.
pub open spec fn poison_inner_result<D: SpecDecoder>(r: Result<SimpleDecoderView<PoisonDecoder<D>>, Error>) -> Result<
    SimpleDecoderView<D>,
    Error,
> {
    match r {
        Ok(v) => Ok(inner_view(v)),
        Err(e) => Err(e),
    }
}

/// The inner decoder's next entry that a next entry of the poison decoder
/// wraps.
pub open spec fn poison_inner_key<K>(r: Result<Option<PoisonWrapper<K>>, Error>) -> Result<Option<K>, Error> {
    match r {
        Ok(Some(k)) => Ok(Some(k.inner())),
        Ok(None) => Ok(None),
        Err(e) => Err(e),
    }
}

/// The inner decoder's payload and closer that those of the poison decoder
/// wrap.
pub open spec fn poison_inner_variant<D: SpecDecoder>(
    r: Result<(SimpleDecoderView<PoisonDecoder<D>>, PoisonWrapper<D::EnumCloser>), Error>,
) -> Result<(SimpleDecoderView<D>, D::EnumCloser), Error> {
    match r {
        Ok((v, c)) => Ok((inner_view(v), c.inner())),
        Err(e) => Err(e),
    }
}

impl<D: SpecDecoder> SpecDecoder for PoisonDecoder<D> {
    type AnyDecoder = PoisonWrapper<D::AnyDecoder>;
    type SeqDecoder = PoisonWrapper<D::SeqDecoder>;
    type MapDecoder = PoisonWrapper<D::MapDecoder>;
    type KeyDecoder = PoisonWrapper<D::KeyDecoder>;
    type ValueDecoder = PoisonWrapper<D::ValueDecoder>;
    type DiscriminantDecoder = PoisonWrapper<D::DiscriminantDecoder>;
    type VariantDecoder = PoisonWrapper<D::VariantDecoder>;
    type EnumCloser = PoisonWrapper<D::EnumCloser>;
    type SomeDecoder = PoisonWrapper<D::SomeDecoder>;
    type SomeCloser = PoisonWrapper<D::SomeCloser>;

    open spec fn input_left(&self) -> nat {
        self.inner().input_left()
    }

    open spec fn seq_left(seq: PoisonWrapper<D::SeqDecoder>) -> nat {
        D::seq_left(seq.inner())
    }

    open spec fn map_left(map: PoisonWrapper<D::MapDecoder>) -> nat {
        D::map_left(map.inner())
    }

    /// A refused handle leaves everything as it was; otherwise the level
    /// closes, and the nested handle of the result, if any, opens one.
    open spec fn decode_state(
        &self,
        any: PoisonWrapper<D::AnyDecoder>,
        hint: DecodeHint,
        r: Result<SimpleDecoderView<PoisonDecoder<D>>, Error>,
        next: Self,
    ) -> bool {
        if any.depth() != self.depth() {
            next == *self
        } else {
            match r {
                Err(e) => next.depth() == self.depth() - 1 && self.inner().decode_state(any.inner(), hint, Err(e), next.inner()),
                Ok(v) => next.depth() == self.depth() - 1 + (if (v is OptionSome || v is Sequence || v is Mapping || v is Enum) { 1int } else { 0int })
                    && self.inner().decode_state(any.inner(), hint, Ok(inner_view(v)), next.inner()),
            }
        }
    }

    open spec fn seq_next_state(
        &self,
        seq: PoisonWrapper<D::SeqDecoder>,
        seq_after: PoisonWrapper<D::SeqDecoder>,
        next: Self,
    ) -> bool {
        &&& seq_after.depth() == seq.depth()
        &&& if self.depth() == usize::MAX || seq.depth() != self.depth() {
            next == *self && seq_after == seq
        } else {
            &&& self.inner().seq_next_state(seq.inner(), seq_after.inner(), next.inner())
            &&& match self.inner().seq_next_spec(seq.inner()) {
                Ok(Some(a)) => next.depth() == self.depth() + 1,
                _ => next.depth() == self.depth(),
            }
        }
    }

    open spec fn seq_end_state(&self, seq: PoisonWrapper<D::SeqDecoder>, next: Self) -> bool {
        if seq.depth() != self.depth() {
            next == *self
        } else {
            next.depth() == self.depth() - 1 && self.inner().seq_end_state(seq.inner(), next.inner())
        }
    }

    open spec fn map_next_state(
        &self,
        map: PoisonWrapper<D::MapDecoder>,
        map_after: PoisonWrapper<D::MapDecoder>,
        r: Result<Option<PoisonWrapper<D::KeyDecoder>>, Error>,
        next: Self,
    ) -> bool {
        &&& map_after.depth() == map.depth()
        &&& if self.depth() == usize::MAX || map.depth() != self.depth() {
            next == *self && map_after == map
        } else {
            match r {
                Ok(Some(k)) => next.depth() == self.depth() + 1
                    && self.inner().map_next_state(map.inner(), map_after.inner(), Ok(Some(k.inner())), next.inner()),
                Ok(None) => next.depth() == self.depth()
                    && self.inner().map_next_state(map.inner(), map_after.inner(), Ok(None), next.inner()),
                Err(e) => next.depth() == self.depth()
                    && self.inner().map_next_state(map.inner(), map_after.inner(), Err(e), next.inner()),
            }
        }
    }

    open spec fn map_end_state(&self, map: PoisonWrapper<D::MapDecoder>, next: Self) -> bool {
        if map.depth() != self.depth() {
            next == *self
        } else {
            next.depth() == self.depth() - 1 && self.inner().map_end_state(map.inner(), next.inner())
        }
    }

    open spec fn entry_key_state(&self, key: PoisonWrapper<D::KeyDecoder>, next: Self) -> bool {
        if self.depth() == usize::MAX || key.depth() != self.depth() {
            next == *self
        } else {
            &&& self.inner().entry_key_state(key.inner(), next.inner())
            &&& next.depth() == if self.inner().entry_key_spec(key.inner()) is Ok { self.depth() + 1 } else { self.depth() - 1 }
        }
    }

    open spec fn entry_value_state(&self, value: PoisonWrapper<D::ValueDecoder>, next: Self) -> bool {
        if value.depth() != self.depth() {
            next == *self
        } else {
            &&& self.inner().entry_value_state(value.inner(), next.inner())
            &&& next.depth() == if self.inner().entry_value_spec(value.inner()) is Ok { self.depth() as int } else { self.depth() - 1 }
        }
    }

    open spec fn enum_discriminant_state(&self, disc: PoisonWrapper<D::DiscriminantDecoder>, next: Self) -> bool {
        if self.depth() == usize::MAX || disc.depth() != self.depth() {
            next == *self
        } else {
            &&& self.inner().enum_discriminant_state(disc.inner(), next.inner())
            &&& next.depth() == if self.inner().enum_discriminant_spec(disc.inner()) is Ok { self.depth() + 1 } else { self.depth() - 1 }
        }
    }

    open spec fn enum_variant_state(
        &self,
        variant: PoisonWrapper<D::VariantDecoder>,
        hint: DecodeVariantHint,
        r: Result<(SimpleDecoderView<PoisonDecoder<D>>, PoisonWrapper<D::EnumCloser>), Error>,
        next: Self,
    ) -> bool {
        if self.depth() == usize::MAX || variant.depth() != self.depth() {
            next == *self
        } else {
            match r {
                Err(e) => next.depth() == self.depth() - 1
                    && self.inner().enum_variant_state(variant.inner(), hint, Err(e), next.inner()),
                Ok((v, c)) => next.depth() == self.depth() + (if (v is OptionSome || v is Sequence || v is Mapping || v is Enum) { 1int } else { 0int })
                    && self.inner().enum_variant_state(variant.inner(), hint, Ok((inner_view(v), c.inner())), next.inner()),
            }
        }
    }

    open spec fn enum_end_state(&self, closer: PoisonWrapper<D::EnumCloser>, next: Self) -> bool {
        if closer.depth() != self.depth() {
            next == *self
        } else {
            next.depth() == self.depth() - 1 && self.inner().enum_end_state(closer.inner(), next.inner())
        }
    }

    open spec fn some_inner_state(&self, some: PoisonWrapper<D::SomeDecoder>, next: Self) -> bool {
        if self.depth() == usize::MAX || some.depth() != self.depth() {
            next == *self
        } else {
            &&& self.inner().some_inner_state(some.inner(), next.inner())
            &&& next.depth() == if self.inner().some_inner_spec(some.inner()) is Ok { self.depth() + 1 } else { self.depth() - 1 }
        }
    }

    open spec fn some_end_state(&self, closer: PoisonWrapper<D::SomeCloser>, next: Self) -> bool {
        if closer.depth() != self.depth() {
            next == *self
        } else {
            next.depth() == self.depth() - 1 && self.inner().some_end_state(closer.inner(), next.inner())
        }
    }

    open spec fn decode_spec(
        &self,
        any: PoisonWrapper<D::AnyDecoder>,
        hint: DecodeHint,
        r: Result<SimpleDecoderView<PoisonDecoder<D>>, Error>,
    ) -> bool {
        if any.depth() != self.depth() {
            r == Err::<SimpleDecoderView<PoisonDecoder<D>>, Error>(poison_error())
        } else {
            match r {
                Err(e) => self.inner().decode_spec(any.inner(), hint, Err(e)),
                Ok(v) => exists|v0: SimpleDecoderView<D>|
                    #[trigger] self.inner().decode_spec(any.inner(), hint, Ok(v0)) && match (v0, v) {
                        (SimpleDecoderView::Primitive(a), SimpleDecoderView::Primitive(b)) => a == b,
                        (SimpleDecoderView::String(a), SimpleDecoderView::String(b)) => a == b,
                        (SimpleDecoderView::Bytes(a), SimpleDecoderView::Bytes(b)) => a == b,
                        (SimpleDecoderView::OptionNone, SimpleDecoderView::OptionNone) => true,
                        (SimpleDecoderView::OptionSome(a), SimpleDecoderView::OptionSome(b)) => b.inner() == a && b.depth() == self.depth(),
                        (SimpleDecoderView::Sequence(a), SimpleDecoderView::Sequence(b)) => b.inner() == a && b.depth() == self.depth(),
                        (SimpleDecoderView::Mapping(a), SimpleDecoderView::Mapping(b)) => b.inner() == a && b.depth() == self.depth(),
                        (SimpleDecoderView::Enum(a), SimpleDecoderView::Enum(b)) => b.inner() == a && b.depth() == self.depth(),
                        _ => false,
                    },
            }
        }
    }

    /// Takes the handle (which must be at the current depth) and wraps the
    /// nested handle of the result, if any, at the same depth again.
    fn decode(&mut self, any: Self::AnyDecoder, hint: DecodeHint) -> (r: Result<
        SimpleDecoderView<Self>,
        Error,
    >)
        ensures
            any.depth() == old(self).depth() ==> old(self).inner().decode_spec(any.inner(), hint, poison_inner_result(r)),
            any.depth() == old(self).depth() ==> old(self).inner().decode_state(any.inner(), hint, poison_inner_result(r), final(self).inner()),
            any.depth() != old(self).depth() ==> *final(self) == *old(self),
            any.depth() != old(self).depth() ==> (r matches Err(e) && e == poison_error())
                && final(self).depth() == old(self).depth() && final(self).inner() == old(self).inner(),
            r matches Ok(v) ==> any.depth() == old(self).depth() && final(self).depth() == old(self).depth() - 1
                + (if (v is OptionSome || v is Sequence || v is Mapping || v is Enum) { 1int } else { 0int }) && (v matches SimpleDecoderView::OptionSome(w) ==> w.depth() == final(self).depth())
                && (v matches SimpleDecoderView::Sequence(w) ==> w.depth() == final(self).depth())
                && (v matches SimpleDecoderView::Mapping(w) ==> w.depth() == final(self).depth())
                && (v matches SimpleDecoderView::Enum(w) ==> w.depth() == final(self).depth()),
    {
        let ghost old_inner = self.inner;
        let any = self.pop(any)?;
        let view = self.inner.decode(any, hint)?;
        let r = self.wrap_view(view);
        assert(old_inner.decode_spec(any, hint, Ok::<SimpleDecoderView<D>, Error>(view)));
        Ok(r)
    }

    open spec fn human_readable_spec(&self) -> bool {
        self.inner().human_readable_spec()
    }

    fn is_human_readable(&self) -> (r: bool) {
        self.inner.is_human_readable()
    }

    open spec fn seq_exact_size_spec(&self, seq: PoisonWrapper<D::SeqDecoder>) -> Option<usize> {
        self.inner().seq_exact_size_spec(seq.inner())
    }

    open spec fn map_exact_size_spec(&self, map: PoisonWrapper<D::MapDecoder>) -> Option<usize> {
        self.inner().map_exact_size_spec(map.inner())
    }

    /// Needs the sequence handle at the current depth; a next element is
    /// handed out one level deeper.
    closed spec fn seq_next_spec(&self, seq: PoisonWrapper<D::SeqDecoder>) -> Result<
        Option<PoisonWrapper<D::AnyDecoder>>,
        Error,
    > {
        if self.depth == usize::MAX || seq.depth != self.depth {
            Err(poison_error())
        } else {
            match self.inner.seq_next_spec(seq.inner) {
                Ok(Some(a)) => Ok(Some(PoisonWrapper { inner: a, depth: (self.depth + 1) as usize })),
                Ok(None) => Ok(None),
                Err(e) => Err(e),
            }
        }
    }

    fn decode_seq_next(&mut self, seq: &mut Self::SeqDecoder) -> (r: Result<
        Option<Self::AnyDecoder>,
        Error,
    >)
        ensures
            old(self).depth() < usize::MAX && old(seq).depth() == old(self).depth() ==> match old(self).inner().seq_next_spec(old(seq).inner()) {
                Ok(Some(a)) => r matches Ok(Some(x)) && x.inner() == a && x.depth() == old(self).depth() + 1,
                Ok(None) => r matches Ok(None),
                Err(e) => r matches Err(e2) && e2 == e,
            },
            old(self).depth() < usize::MAX && old(seq).depth() == old(self).depth() ==> old(self).inner().seq_next_state(old(seq).inner(), final(seq).inner(), final(self).inner()),
            (old(self).depth() == usize::MAX || old(seq).depth() != old(self).depth()) ==> *final(self) == *old(self),
            old(seq).depth() != old(self).depth() ==> (r matches Err(e) && e == poison_error())
                && final(self).depth() == old(self).depth(),
            final(seq).depth() == old(seq).depth(),
            r matches Ok(Some(x)) ==> old(seq).depth() == old(self).depth() && x.depth() == final(self).depth()
                && final(self).depth() == old(self).depth() + 1,
            r matches Ok(None) ==> old(seq).depth() == old(self).depth() && final(self).depth() == old(self).depth(),
    {
        if self.depth == usize::MAX {
            return Err(Error::DecodePoison(DecodePoisonError::UnexpectedDecodeState));
        }
        let seq_inner = self.peek(seq)?;
        match self.inner.decode_seq_next(seq_inner)? {
            Some(decoder) => Ok(Some(self.push(decoder))),
            None => Ok(None),
        }
    }

    fn decode_seq_exact_size(&self, seq: &Self::SeqDecoder) -> (r: Option<usize>) {
        self.inner.decode_seq_exact_size(&seq.inner)
    }

    /// Closes the sequence level.
    open spec fn seq_end_spec(&self, seq: PoisonWrapper<D::SeqDecoder>) -> Result<(), Error> {
        if seq.depth() != self.depth() {
            Err(poison_error())
        } else {
            self.inner().seq_end_spec(seq.inner())
        }
    }

    open spec fn map_end_spec(&self, map: PoisonWrapper<D::MapDecoder>) -> Result<(), Error> {
        if map.depth() != self.depth() {
            Err(poison_error())
        } else {
            self.inner().map_end_spec(map.inner())
        }
    }

    open spec fn enum_end_spec(&self, closer: PoisonWrapper<D::EnumCloser>) -> Result<(), Error> {
        if closer.depth() != self.depth() {
            Err(poison_error())
        } else {
            self.inner().enum_end_spec(closer.inner())
        }
    }

    open spec fn some_end_spec(&self, closer: PoisonWrapper<D::SomeCloser>) -> Result<(), Error> {
        if closer.depth() != self.depth() {
            Err(poison_error())
        } else {
            self.inner().some_end_spec(closer.inner())
        }
    }

    fn decode_seq_end(&mut self, seq: Self::SeqDecoder) -> (r: Result<(), Error>)
        ensures
            seq.depth() == old(self).depth() ==> r == old(self).inner().seq_end_spec(seq.inner()) && old(self).inner().seq_end_state(seq.inner(), final(self).inner()) && final(self).depth() == old(self).depth() - 1,
            seq.depth() != old(self).depth() ==> *final(self) == *old(self),
            seq.depth() != old(self).depth() ==> (r matches Err(e) && e == poison_error())
                && final(self).depth() == old(self).depth(),
            r is Ok ==> seq.depth() == old(self).depth() && final(self).depth() == old(self).depth() - 1,
    {
        let seq = self.pop(seq)?;
        self.inner.decode_seq_end(seq)
    }

    open spec fn map_next_spec(
        &self,
        map: PoisonWrapper<D::MapDecoder>,
        r: Result<Option<PoisonWrapper<D::KeyDecoder>>, Error>,
    ) -> bool {
        if self.depth() == usize::MAX || map.depth() != self.depth() {
            r == Err::<Option<PoisonWrapper<D::KeyDecoder>>, Error>(poison_error())
        } else {
            match r {
                Ok(Some(k)) => k.depth() == self.depth() + 1 && self.inner().map_next_spec(map.inner(), Ok(Some(k.inner()))),
                Ok(None) => self.inner().map_next_spec(map.inner(), Ok(None)),
                Err(e) => self.inner().map_next_spec(map.inner(), Err(e)),
            }
        }
    }

    /// Needs the map handle at the current depth; a next entry is handed out
    /// one level deeper.
    fn decode_map_next(&mut self, map: &mut Self::MapDecoder) -> (r: Result<
        Option<Self::KeyDecoder>,
        Error,
    >)
        ensures
            old(self).depth() < usize::MAX && old(map).depth() == old(self).depth() ==> old(self).inner().map_next_spec(old(map).inner(), poison_inner_key(r)),
            old(self).depth() < usize::MAX && old(map).depth() == old(self).depth() ==> old(self).inner().map_next_state(old(map).inner(), final(map).inner(), poison_inner_key(r), final(self).inner()),
            r matches Ok(Some(x)) ==> x.depth() == old(self).depth() + 1,
            (old(self).depth() == usize::MAX || old(map).depth() != old(self).depth()) ==> *final(self) == *old(self),
            old(map).depth() != old(self).depth() ==> (r matches Err(e) && e == poison_error())
                && final(self).depth() == old(self).depth(),
            final(map).depth() == old(map).depth(),
            r matches Ok(Some(x)) ==> old(map).depth() == old(self).depth() && x.depth() == final(self).depth()
                && final(self).depth() == old(self).depth() + 1,
            r matches Ok(None) ==> old(map).depth() == old(self).depth() && final(self).depth() == old(self).depth(),
    {
        if self.depth == usize::MAX {
            return Err(Error::DecodePoison(DecodePoisonError::UnexpectedDecodeState));
        }
        let map_inner = self.peek(map)?;
        match self.inner.decode_map_next(map_inner)? {
            Some(decoder) => Ok(Some(self.push(decoder))),
            None => Ok(None),
        }
    }

    fn decode_map_exact_size(&self, map: &Self::MapDecoder) -> (r: Option<usize>) {
        self.inner.decode_map_exact_size(&map.inner)
    }

    /// Closes the map level.
    fn decode_map_end(&mut self, map: Self::MapDecoder) -> (r: Result<(), Error>)
        ensures
            map.depth() == old(self).depth() ==> r == old(self).inner().map_end_spec(map.inner()) && old(self).inner().map_end_state(map.inner(), final(self).inner()) && final(self).depth() == old(self).depth() - 1,
            map.depth() != old(self).depth() ==> *final(self) == *old(self),
            map.depth() != old(self).depth() ==> (r matches Err(e) && e == poison_error())
                && final(self).depth() == old(self).depth(),
            r is Ok ==> map.depth() == old(self).depth() && final(self).depth() == old(self).depth() - 1,
    {
        let map = self.pop(map)?;
        self.inner.decode_map_end(map)
    }

    closed spec fn entry_key_spec(&self, key: PoisonWrapper<D::KeyDecoder>) -> Result<
        (PoisonWrapper<D::AnyDecoder>, PoisonWrapper<D::ValueDecoder>),
        Error,
    > {
        if self.depth == usize::MAX || key.depth != self.depth {
            Err(poison_error())
        } else {
            match self.inner.entry_key_spec(key.inner) {
                Ok((a, v)) => Ok((
                    PoisonWrapper { inner: a, depth: (self.depth + 1) as usize },
                    PoisonWrapper { inner: v, depth: self.depth },
                )),
                Err(e) => Err(e),
            }
        }
    }

    closed spec fn entry_value_spec(&self, value: PoisonWrapper<D::ValueDecoder>) -> Result<
        PoisonWrapper<D::AnyDecoder>,
        Error,
    > {
        if value.depth != self.depth {
            Err(poison_error())
        } else {
            match self.inner.entry_value_spec(value.inner) {
                Ok(a) => Ok(PoisonWrapper { inner: a, depth: self.depth }),
                Err(e) => Err(e),
            }
        }
    }

    closed spec fn enum_discriminant_spec(&self, disc: PoisonWrapper<D::DiscriminantDecoder>) -> Result<
        (PoisonWrapper<D::AnyDecoder>, PoisonWrapper<D::VariantDecoder>),
        Error,
    > {
        if self.depth == usize::MAX || disc.depth != self.depth {
            Err(poison_error())
        } else {
            match self.inner.enum_discriminant_spec(disc.inner) {
                Ok((a, v)) => Ok((
                    PoisonWrapper { inner: a, depth: (self.depth + 1) as usize },
                    PoisonWrapper { inner: v, depth: self.depth },
                )),
                Err(e) => Err(e),
            }
        }
    }

    closed spec fn some_inner_spec(&self, some: PoisonWrapper<D::SomeDecoder>) -> Result<
        (PoisonWrapper<D::AnyDecoder>, PoisonWrapper<D::SomeCloser>),
        Error,
    > {
        if self.depth == usize::MAX || some.depth != self.depth {
            Err(poison_error())
        } else {
            match self.inner.some_inner_spec(some.inner) {
                Ok((a, c)) => Ok((
                    PoisonWrapper { inner: a, depth: (self.depth + 1) as usize },
                    PoisonWrapper { inner: c, depth: self.depth },
                )),
                Err(e) => Err(e),
            }
        }
    }

    /// Takes the entry handle; the value handle stays at the entry's level and
    /// the key handle is one level deeper.
    fn decode_entry_key(&mut self, key: Self::KeyDecoder) -> (r: Result<
        (Self::AnyDecoder, Self::ValueDecoder),
        Error,
    >)
        ensures
            old(self).depth() < usize::MAX && key.depth() == old(self).depth() ==> match old(self).inner().entry_key_spec(key.inner()) {
                Ok((a, b)) => r matches Ok((x, y)) && x.inner() == a && y.inner() == b && x.depth() == old(self).depth() + 1
                    && y.depth() == old(self).depth() && final(self).depth() == old(self).depth() + 1,
                Err(e) => r matches Err(e2) && e2 == e && final(self).depth() == old(self).depth() - 1,
            },
            old(self).depth() < usize::MAX && key.depth() == old(self).depth() ==> old(self).inner().entry_key_state(key.inner(), final(self).inner()),
            (old(self).depth() == usize::MAX || key.depth() != old(self).depth()) ==> *final(self) == *old(self),
            key.depth() != old(self).depth() ==> (r matches Err(e) && e == poison_error()),
            r matches Ok((k, v)) ==> key.depth() == old(self).depth() && v.depth() == old(self).depth()
                && k.depth() == old(self).depth() + 1 && final(self).depth() == old(self).depth() + 1,
    {
        if self.depth == usize::MAX {
            return Err(Error::DecodePoison(DecodePoisonError::UnexpectedDecodeState));
        }
        let key = self.pop(key)?;
        let (decoder, value) = self.inner.decode_entry_key(key)?;
        let value = self.push(value);
        let decoder = self.push(decoder);
        Ok((decoder, value))
    }

    /// Takes the value handle and hands out the value's decoder at its level.
    fn decode_entry_value(&mut self, value: Self::ValueDecoder) -> (r: Result<Self::AnyDecoder, Error>)
        ensures
            value.depth() == old(self).depth() ==> match old(self).inner().entry_value_spec(value.inner()) {
                Ok(a) => r matches Ok(x) && x.inner() == a && x.depth() == old(self).depth() && final(self).depth() == old(self).depth(),
                Err(e) => r matches Err(e2) && e2 == e && final(self).depth() == old(self).depth() - 1,
            },
            value.depth() == old(self).depth() ==> old(self).inner().entry_value_state(value.inner(), final(self).inner()),
            value.depth() != old(self).depth() ==> *final(self) == *old(self),
            value.depth() != old(self).depth() ==> (r matches Err(e) && e == poison_error()),
            r matches Ok(x) ==> value.depth() == old(self).depth() && x.depth() == old(self).depth()
                && final(self).depth() == old(self).depth(),
    {
        let value = self.pop(value)?;
        let decoder = self.inner.decode_entry_value(value)?;
        Ok(self.push(decoder))
    }

    /// Takes the enum handle; the variant handle stays at its level and the
    /// discriminant handle is one level deeper.
    fn decode_enum_discriminant(&mut self, disc: Self::DiscriminantDecoder) -> (r: Result<
        (Self::AnyDecoder, Self::VariantDecoder),
        Error,
    >)
        ensures
            old(self).depth() < usize::MAX && disc.depth() == old(self).depth() ==> match old(self).inner().enum_discriminant_spec(disc.inner()) {
                Ok((a, b)) => r matches Ok((x, y)) && x.inner() == a && y.inner() == b && x.depth() == old(self).depth() + 1
                    && y.depth() == old(self).depth() && final(self).depth() == old(self).depth() + 1,
                Err(e) => r matches Err(e2) && e2 == e && final(self).depth() == old(self).depth() - 1,
            },
            old(self).depth() < usize::MAX && disc.depth() == old(self).depth() ==> old(self).inner().enum_discriminant_state(disc.inner(), final(self).inner()),
            (old(self).depth() == usize::MAX || disc.depth() != old(self).depth()) ==> *final(self) == *old(self),
            disc.depth() != old(self).depth() ==> (r matches Err(e) && e == poison_error()),
            r matches Ok((d, v)) ==> disc.depth() == old(self).depth() && v.depth() == old(self).depth()
                && d.depth() == old(self).depth() + 1 && final(self).depth() == old(self).depth() + 1,
    {
        if self.depth == usize::MAX {
            return Err(Error::DecodePoison(DecodePoisonError::UnexpectedDecodeState));
        }
        let disc = self.pop(disc)?;
        let (decoder, variant) = self.inner.decode_enum_discriminant(disc)?;
        let variant = self.push(variant);
        let decoder = self.push(decoder);
        Ok((decoder, variant))
    }

    open spec fn enum_variant_spec(
        &self,
        variant: PoisonWrapper<D::VariantDecoder>,
        hint: DecodeVariantHint,
        r: Result<(SimpleDecoderView<PoisonDecoder<D>>, PoisonWrapper<D::EnumCloser>), Error>,
    ) -> bool {
        if self.depth() == usize::MAX || variant.depth() != self.depth() {
            r == Err::<(SimpleDecoderView<PoisonDecoder<D>>, PoisonWrapper<D::EnumCloser>), Error>(poison_error())
        } else {
            match r {
                Err(e) => self.inner().enum_variant_spec(variant.inner(), hint, Err(e)),
                Ok((v, c)) => c.depth() == self.depth() && exists|v0: SimpleDecoderView<D>|
                    #[trigger] self.inner().enum_variant_spec(variant.inner(), hint, Ok((v0, c.inner()))) && match (v0, v) {
                        (SimpleDecoderView::Primitive(a), SimpleDecoderView::Primitive(b)) => a == b,
                        (SimpleDecoderView::String(a), SimpleDecoderView::String(b)) => a == b,
                        (SimpleDecoderView::Bytes(a), SimpleDecoderView::Bytes(b)) => a == b,
                        (SimpleDecoderView::OptionNone, SimpleDecoderView::OptionNone) => true,
                        (SimpleDecoderView::OptionSome(a), SimpleDecoderView::OptionSome(b)) => b.inner() == a && b.depth() == self.depth() + 1,
                        (SimpleDecoderView::Sequence(a), SimpleDecoderView::Sequence(b)) => b.inner() == a && b.depth() == self.depth() + 1,
                        (SimpleDecoderView::Mapping(a), SimpleDecoderView::Mapping(b)) => b.inner() == a && b.depth() == self.depth() + 1,
                        (SimpleDecoderView::Enum(a), SimpleDecoderView::Enum(b)) => b.inner() == a && b.depth() == self.depth() + 1,
                        _ => false,
                    },
            }
        }
    }

    /// Takes the variant handle; the closer stays at its level and the nested
    /// handle of the payload, if any, is one level deeper.
    fn decode_enum_variant(&mut self, variant: Self::VariantDecoder, hint: DecodeVariantHint) -> (r: Result<
        (SimpleDecoderView<Self>, Self::EnumCloser),
        Error,
    >)
        ensures
            old(self).depth() < usize::MAX && variant.depth() == old(self).depth() ==> old(self).inner().enum_variant_spec(variant.inner(), hint, poison_inner_variant(r)),
            old(self).depth() < usize::MAX && variant.depth() == old(self).depth() ==> old(self).inner().enum_variant_state(variant.inner(), hint, poison_inner_variant(r), final(self).inner()),
            (old(self).depth() == usize::MAX || variant.depth() != old(self).depth()) ==> *final(self) == *old(self),
            variant.depth() != old(self).depth() ==> (r matches Err(e) && e == poison_error()),
            r matches Ok((v, c)) ==> variant.depth() == old(self).depth() && c.depth() == old(self).depth()
                && final(self).depth() == old(self).depth() + (if (v is OptionSome || v is Sequence || v is Mapping || v is Enum) { 1int } else { 0int })
                && (v matches SimpleDecoderView::OptionSome(w) ==> w.depth() == final(self).depth())
                && (v matches SimpleDecoderView::Sequence(w) ==> w.depth() == final(self).depth())
                && (v matches SimpleDecoderView::Mapping(w) ==> w.depth() == final(self).depth())
                && (v matches SimpleDecoderView::Enum(w) ==> w.depth() == final(self).depth()),
    {
        if self.depth == usize::MAX {
            return Err(Error::DecodePoison(DecodePoisonError::UnexpectedDecodeState));
        }
        let ghost old_inner = self.inner;
        let ghost outer = variant;
        let variant = self.pop(variant)?;
        let (decoder, closer) = self.inner.decode_enum_variant(variant, hint)?;
        let ghost inner_result = (decoder, closer);
        let closer = self.push(closer);
        let decoder = self.wrap_view(decoder);
        assert(old_inner.enum_variant_spec(variant, hint, Ok::<(SimpleDecoderView<D>, D::EnumCloser), Error>(inner_result)));
        assert(old(self).enum_variant_spec(outer, hint, Ok::<(SimpleDecoderView<PoisonDecoder<D>>, PoisonWrapper<D::EnumCloser>), Error>((decoder, closer))));
        Ok((decoder, closer))
    }

    /// Closes the enum level.
    fn decode_enum_end(&mut self, closer: Self::EnumCloser) -> (r: Result<(), Error>)
        ensures
            closer.depth() == old(self).depth() ==> r == old(self).inner().enum_end_spec(closer.inner()) && old(self).inner().enum_end_state(closer.inner(), final(self).inner()) && final(self).depth() == old(self).depth() - 1,
            closer.depth() != old(self).depth() ==> *final(self) == *old(self),
            closer.depth() != old(self).depth() ==> (r matches Err(e) && e == poison_error()),
            r is Ok ==> closer.depth() == old(self).depth() && final(self).depth() == old(self).depth() - 1,
    {
        let closer = self.pop(closer)?;
        self.inner.decode_enum_end(closer)?;
        Ok(())
    }

    /// Takes the option handle; the closer stays at its level and the handle
    /// of the present value is one level deeper.
    fn decode_some_inner(&mut self, some: Self::SomeDecoder) -> (r: Result<
        (Self::AnyDecoder, Self::SomeCloser),
        Error,
    >)
        ensures
            old(self).depth() < usize::MAX && some.depth() == old(self).depth() ==> match old(self).inner().some_inner_spec(some.inner()) {
                Ok((a, b)) => r matches Ok((x, y)) && x.inner() == a && y.inner() == b && x.depth() == old(self).depth() + 1
                    && y.depth() == old(self).depth() && final(self).depth() == old(self).depth() + 1,
                Err(e) => r matches Err(e2) && e2 == e && final(self).depth() == old(self).depth() - 1,
            },
            old(self).depth() < usize::MAX && some.depth() == old(self).depth() ==> old(self).inner().some_inner_state(some.inner(), final(self).inner()),
            (old(self).depth() == usize::MAX || some.depth() != old(self).depth()) ==> *final(self) == *old(self),
            some.depth() != old(self).depth() ==> (r matches Err(e) && e == poison_error()),
            r matches Ok((d, c)) ==> some.depth() == old(self).depth() && c.depth() == old(self).depth()
                && d.depth() == old(self).depth() + 1 && final(self).depth() == old(self).depth() + 1,
    {
        if self.depth == usize::MAX {
            return Err(Error::DecodePoison(DecodePoisonError::UnexpectedDecodeState));
        }
        let some = self.pop(some)?;
        let (decoder, closer) = self.inner.decode_some_inner(some)?;
        let closer = self.push(closer);
        let decoder = self.push(decoder);
        Ok((decoder, closer))
    }

    /// Closes the option level.
    fn decode_some_end(&mut self, closer: Self::SomeCloser) -> (r: Result<(), Error>)
        ensures
            closer.depth() == old(self).depth() ==> r == old(self).inner().some_end_spec(closer.inner()) && old(self).inner().some_end_state(closer.inner(), final(self).inner()) && final(self).depth() == old(self).depth() - 1,
            closer.depth() != old(self).depth() ==> *final(self) == *old(self),
            closer.depth() != old(self).depth() ==> (r matches Err(e) && e == poison_error()),
            r is Ok ==> closer.depth() == old(self).depth() && final(self).depth() == old(self).depth() - 1,
    {
        let closer = self.pop(closer)?;
        self.inner.decode_some_end(closer)?;
        Ok(())
    }
}

/// Handles are taken in turn: a step on a handle that is not at the
/// decoder's current depth is refused with the poison error.  At that depth
/// the inner decoder takes the step on the handle it wraps: the next element
/// of a sequence, the key of an entry, the payload of an option and the
/// discriminant of an enum come back one level deeper; the value of an
/// entry, the closer of an option and the variant of an enum at the same
/// level.
pub proof fn lemma_poison_turns<D: SpecDecoder>(
    d: PoisonDecoder<D>,
    seq: PoisonWrapper<D::SeqDecoder>,
    key: PoisonWrapper<D::KeyDecoder>,
    value: PoisonWrapper<D::ValueDecoder>,
    some: PoisonWrapper<D::SomeDecoder>,
    disc: PoisonWrapper<D::DiscriminantDecoder>,
)
    ensures
        seq.depth() != d.depth() ==> d.seq_next_spec(seq) == Err::<Option<PoisonWrapper<D::AnyDecoder>>, Error>(poison_error()),
        d.depth() < usize::MAX && seq.depth() == d.depth() ==> poison_inner_key(d.seq_next_spec(seq)) == d.inner().seq_next_spec(seq.inner())
            && (d.seq_next_spec(seq) matches Ok(Some(x)) ==> x.depth() == d.depth() + 1),
        key.depth() != d.depth() ==> d.entry_key_spec(key) == Err::<(PoisonWrapper<D::AnyDecoder>, PoisonWrapper<D::ValueDecoder>), Error>(poison_error()),
        d.depth() < usize::MAX && key.depth() == d.depth() ==> match (d.entry_key_spec(key), d.inner().entry_key_spec(key.inner())) {
            (Ok((a, v)), Ok((a0, v0))) => a.inner() == a0 && v.inner() == v0 && a.depth() == d.depth() + 1 && v.depth() == d.depth(),
            (Err(e), Err(e0)) => e == e0,
            _ => false,
        },
        value.depth() != d.depth() ==> d.entry_value_spec(value) == Err::<PoisonWrapper<D::AnyDecoder>, Error>(poison_error()),
        value.depth() == d.depth() ==> match (d.entry_value_spec(value), d.inner().entry_value_spec(value.inner())) {
            (Ok(a), Ok(a0)) => a.inner() == a0 && a.depth() == d.depth(),
            (Err(e), Err(e0)) => e == e0,
            _ => false,
        },
        some.depth() != d.depth() ==> d.some_inner_spec(some) == Err::<(PoisonWrapper<D::AnyDecoder>, PoisonWrapper<D::SomeCloser>), Error>(poison_error()),
        d.depth() < usize::MAX && some.depth() == d.depth() ==> match (d.some_inner_spec(some), d.inner().some_inner_spec(some.inner())) {
            (Ok((a, c)), Ok((a0, c0))) => a.inner() == a0 && c.inner() == c0 && a.depth() == d.depth() + 1 && c.depth() == d.depth(),
            (Err(e), Err(e0)) => e == e0,
            _ => false,
        },
        disc.depth() != d.depth() ==> d.enum_discriminant_spec(disc) == Err::<(PoisonWrapper<D::AnyDecoder>, PoisonWrapper<D::VariantDecoder>), Error>(poison_error()),
        d.depth() < usize::MAX && disc.depth() == d.depth() ==> match (d.enum_discriminant_spec(disc), d.inner().enum_discriminant_spec(disc.inner())) {
            (Ok((a, v)), Ok((a0, v0))) => a.inner() == a0 && v.inner() == v0 && a.depth() == d.depth() + 1 && v.depth() == d.depth(),
            (Err(e), Err(e0)) => e == e0,
            _ => false,
        },
{
}

} // verus!
