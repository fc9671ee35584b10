//! An encoder wrapper that checks that the nested handles are used in order:
//! every handle carries the depth at which it was made, and an operation is
//! only accepted on a handle at the encoder's current depth.
use vstd::prelude::*;
use crate::encode::SpecEncoder;
use crate::error::{EncodePoisonError, Error};

pub use crate::error::EncodePoisonError as PoisonError;
use crate::primitive::Primitive;

verus! {

pub struct PoisonEncoder<E> {
    inner: E,
    depth: usize,
}

/// A handle of the inner encoder, tagged with the depth it was made at.
pub struct PoisonWrapper<T> {
    depth: usize,
    inner: T,
}

pub open spec fn poison_error() -> Error {
    Error::EncodePoison(EncodePoisonError::UnexpectedEncodeState)
}

/// The result of an operation refused for a handle used out of order.
pub open spec fn refused<T>(r: Result<T, Error>) -> bool {
    r == Err::<T, Error>(poison_error())
}

impl<T> PoisonWrapper<T> {
    /// Handles are only made one level below the top, so their depth is positive.
    #[verifier::type_invariant]
    spec fn made_by_push(&self) -> bool {
        self.depth >= 1
    }

    pub closed spec fn depth(&self) -> usize {
        self.depth
    }

    pub closed spec fn inner(&self) -> T {
        self.inner
    }
}

fn lend<T>(x: &mut T) -> (r: &mut T)
    ensures
        *r == *old(x),
        *final(x) == *final(r),
    no_unwind
{
    x
}

impl<E> PoisonEncoder<E> {
    /// The current depth: the number of handles that are open.
    pub closed spec fn depth(&self) -> usize {
        self.depth
    }

    /// The wrapped encoder.
    pub closed spec fn inner(&self) -> E {
        self.inner
    }

    pub fn new(inner: E) -> (r: Self)
        ensures
            r.depth() == 0,
            r.inner() == inner,
    {
        PoisonEncoder { inner, depth: 0 }
    }

    /// Wraps the first handle of a message.
    pub fn start<T>(&mut self, inner: T) -> (r: PoisonWrapper<T>)
        requires
            old(self).depth() < usize::MAX,
        ensures
            final(self).depth() == old(self).depth() + 1,
            final(self).inner() == old(self).inner(),
            r.depth() == final(self).depth(),
            r.inner() == inner,
    {
        self.push(inner)
    }

    /// Gives back the inner encoder; refused while a handle is still open.
    pub fn end(self) -> (r: Result<E, Error>)
        ensures
            self.depth() == 0 ==> r == Ok::<E, Error>(self.inner()),
            self.depth() != 0 ==> r == Err::<E, Error>(poison_error()),
    {
        if self.depth == 0 {
            Ok(self.inner)
        } else {
            Err(Error::EncodePoison(EncodePoisonError::UnexpectedEncodeState))
        }
    }

    /// Opens a handle one level deeper.
    pub fn push<T>(&mut self, inner: T) -> (r: PoisonWrapper<T>)
        requires
            old(self).depth() < usize::MAX,
        ensures
            final(self).depth() == old(self).depth() + 1,
            final(self).inner() == old(self).inner(),
            r.depth() == final(self).depth(),
            r.inner() == inner,
    {
        self.depth = self.depth + 1;
        PoisonWrapper { depth: self.depth, inner }
    }

    /// Takes the handle at the current depth, closing that level.
    pub fn pop<T>(&mut self, wrapper: PoisonWrapper<T>) -> (r: Result<T, Error>)
        ensures
            wrapper.depth() == old(self).depth() ==> r == Ok::<T, Error>(wrapper.inner())
                && final(self).depth() == old(self).depth() - 1,
            wrapper.depth() != old(self).depth() ==> r == Err::<T, Error>(poison_error())
                && final(self).depth() == old(self).depth(),
            final(self).inner() == old(self).inner(),
    {
        proof {
            use_type_invariant(&wrapper);
        }
        if wrapper.depth == self.depth {
            self.depth = self.depth - 1;
            Ok(wrapper.inner)
        } else {
            Err(Error::EncodePoison(EncodePoisonError::UnexpectedEncodeState))
        }
    }

    /// Checks that a handle is at the current depth and lends its content.
    pub fn peek<'a, T>(&self, wrapper: &'a mut PoisonWrapper<T>) -> (r: Result<&'a mut T, Error>)
        ensures
            old(wrapper).depth() == self.depth() <==> r is Ok,
            final(wrapper).depth() == old(wrapper).depth(),
            r is Err ==> r == Err::<&mut T, Error>(poison_error()) && final(wrapper).inner() == old(wrapper).inner(),
            r matches Ok(x) ==> *x == old(wrapper).inner() && final(wrapper).inner() == *final(x),
    {
        proof {
            use_type_invariant(&*wrapper);
        }
        if wrapper.depth == self.depth {
            Ok(lend(&mut wrapper.inner))
        } else {
            Err(Error::EncodePoison(EncodePoisonError::UnexpectedEncodeState))
        }
    }
}

impl<E: SpecEncoder> SpecEncoder for PoisonEncoder<E> {
    type AnySpecEncoder = PoisonWrapper<E::AnySpecEncoder>;
    type SomeCloser = PoisonWrapper<E::SomeCloser>;
    type TupleEncoder = PoisonWrapper<E::TupleEncoder>;
    type SeqEncoder = PoisonWrapper<E::SeqEncoder>;
    type MapEncoder = PoisonWrapper<E::MapEncoder>;
    type ValueEncoder = PoisonWrapper<E::ValueEncoder>;
    type EntryCloser = PoisonWrapper<E::EntryCloser>;
    type TupleStructEncoder = PoisonWrapper<E::TupleStructEncoder>;
    type StructEncoder = PoisonWrapper<E::StructEncoder>;
    type TupleVariantEncoder = PoisonWrapper<E::TupleVariantEncoder>;
    type StructVariantEncoder = PoisonWrapper<E::StructVariantEncoder>;

    /// A handle at another depth is refused and nothing changes; otherwise
    /// the level closes and the inner encoder does the rest.
    open spec fn encode_prim_spec(&self, any: PoisonWrapper<E::AnySpecEncoder>, prim: Primitive, r: Result<(), Error>, next: Self) -> bool {
        if any.depth() != self.depth() {
            refused(r) && next == *self
        } else {
            next.depth() == self.depth() - 1 && self.inner().encode_prim_spec(any.inner(), prim, r, next.inner())
        }
    }

    /// Writes a primitive with the handle at the current depth, closing it.
    fn encode_prim(&mut self, any: Self::AnySpecEncoder, prim: Primitive) -> (r: Result<(), Error>) {
        let any = self.pop(any)?;
        self.inner.encode_prim(any, prim)
    }

    /// A handle at another depth is refused and nothing changes; otherwise
    /// the level closes and the inner encoder does the rest.
    open spec fn encode_str_spec(&self, any: PoisonWrapper<E::AnySpecEncoder>, s: Seq<char>, r: Result<(), Error>, next: Self) -> bool {
        if any.depth() != self.depth() {
            refused(r) && next == *self
        } else {
            next.depth() == self.depth() - 1 && self.inner().encode_str_spec(any.inner(), s, r, next.inner())
        }
    }

    /// Writes a string with the handle at the current depth, closing it.
    fn encode_str(&mut self, any: Self::AnySpecEncoder, s: &str) -> (r: Result<(), Error>) {
        let any = self.pop(any)?;
        self.inner.encode_str(any, s)
    }

    /// A handle at another depth is refused and nothing changes; otherwise
    /// the level closes and the inner encoder does the rest.
    open spec fn encode_bytes_spec(&self, any: PoisonWrapper<E::AnySpecEncoder>, s: Seq<u8>, r: Result<(), Error>, next: Self) -> bool {
        if any.depth() != self.depth() {
            refused(r) && next == *self
        } else {
            next.depth() == self.depth() - 1 && self.inner().encode_bytes_spec(any.inner(), s, r, next.inner())
        }
    }

    /// Writes bytes with the handle at the current depth, closing it.
    fn encode_bytes(&mut self, any: Self::AnySpecEncoder, s: &[u8]) -> (r: Result<(), Error>) {
        let any = self.pop(any)?;
        self.inner.encode_bytes(any, s)
    }

    /// A handle at another depth is refused and nothing changes; otherwise
    /// the level closes and the inner encoder does the rest.
    open spec fn encode_none_spec(&self, any: PoisonWrapper<E::AnySpecEncoder>, r: Result<(), Error>, next: Self) -> bool {
        if any.depth() != self.depth() {
            refused(r) && next == *self
        } else {
            next.depth() == self.depth() - 1 && self.inner().encode_none_spec(any.inner(), r, next.inner())
        }
    }

    /// Writes an absent option with the handle at the current depth.
    fn encode_none(&mut self, any: Self::AnySpecEncoder) -> (r: Result<(), Error>) {
        let any = self.pop(any)?;
        self.inner.encode_none(any)
    }

    /// A handle at another depth is refused and nothing changes; otherwise
    /// the level closes and the inner encoder does the rest.
    open spec fn encode_unit_struct_spec(&self, any: PoisonWrapper<E::AnySpecEncoder>, name: &'static str, r: Result<(), Error>, next: Self) -> bool {
        if any.depth() != self.depth() {
            refused(r) && next == *self
        } else {
            next.depth() == self.depth() - 1 && self.inner().encode_unit_struct_spec(any.inner(), name, r, next.inner())
        }
    }

    /// Writes a unit struct with the handle at the current depth.
    fn encode_unit_struct(&mut self, any: Self::AnySpecEncoder, name: &'static str) -> (r: Result<(), Error>) {
        let any = self.pop(any)?;
        self.inner.encode_unit_struct(any, name)
    }

    /// A handle at another depth is refused and nothing changes; otherwise
    /// the level closes and the inner encoder does the rest.
    open spec fn encode_unit_variant_spec(&self, any: PoisonWrapper<E::AnySpecEncoder>, name: &'static str, variants: &'static [&'static str], variant_index: usize, r: Result<(), Error>, next: Self) -> bool {
        if any.depth() != self.depth() {
            refused(r) && next == *self
        } else {
            next.depth() == self.depth() - 1 && self.inner().encode_unit_variant_spec(any.inner(), name, variants, variant_index, r, next.inner())
        }
    }

    /// Writes a unit variant with the handle at the current depth.
    fn encode_unit_variant(&mut self, any: Self::AnySpecEncoder, name: &'static str, variants: &'static [&'static str], variant_index: usize) -> (r: Result<(), Error>) {
        let any = self.pop(any)?;
        self.inner.encode_unit_variant(any, name, variants, variant_index)
    }

    /// A handle at another depth is refused and nothing changes; otherwise
    /// the level closes and the inner encoder does the rest.
    open spec fn some_end_spec(&self, some: PoisonWrapper<E::SomeCloser>, r: Result<(), Error>, next: Self) -> bool {
        if some.depth() != self.depth() {
            refused(r) && next == *self
        } else {
            next.depth() == self.depth() - 1 && self.inner().some_end_spec(some.inner(), r, next.inner())
        }
    }

    /// Closes the option level.
    fn some_end(&mut self, some: Self::SomeCloser) -> (r: Result<(), Error>) {
        let some = self.pop(some)?;
        self.inner.some_end(some)
    }

    /// A handle at another depth is refused and nothing changes; otherwise
    /// the level closes and the inner encoder does the rest.
    open spec fn tuple_end_spec(&self, tuple: PoisonWrapper<E::TupleEncoder>, r: Result<(), Error>, next: Self) -> bool {
        if tuple.depth() != self.depth() {
            refused(r) && next == *self
        } else {
            next.depth() == self.depth() - 1 && self.inner().tuple_end_spec(tuple.inner(), r, next.inner())
        }
    }

    /// Closes the tuple level.
    fn tuple_end(&mut self, tuple: Self::TupleEncoder) -> (r: Result<(), Error>) {
        let tuple = self.pop(tuple)?;
        self.inner.tuple_end(tuple)
    }

    /// A handle at another depth is refused and nothing changes; otherwise
    /// the level closes and the inner encoder does the rest.
    open spec fn seq_end_spec(&self, seq: PoisonWrapper<E::SeqEncoder>, r: Result<(), Error>, next: Self) -> bool {
        if seq.depth() != self.depth() {
            refused(r) && next == *self
        } else {
            next.depth() == self.depth() - 1 && self.inner().seq_end_spec(seq.inner(), r, next.inner())
        }
    }

    /// Closes the sequence level.
    fn seq_end(&mut self, seq: Self::SeqEncoder) -> (r: Result<(), Error>) {
        let seq = self.pop(seq)?;
        self.inner.seq_end(seq)
    }

    /// A handle at another depth is refused and nothing changes; otherwise
    /// the level closes and the inner encoder does the rest.
    open spec fn map_end_spec(&self, map: PoisonWrapper<E::MapEncoder>, r: Result<(), Error>, next: Self) -> bool {
        if map.depth() != self.depth() {
            refused(r) && next == *self
        } else {
            next.depth() == self.depth() - 1 && self.inner().map_end_spec(map.inner(), r, next.inner())
        }
    }

    /// Closes the map level.
    fn map_end(&mut self, map: Self::MapEncoder) -> (r: Result<(), Error>) {
        let map = self.pop(map)?;
        self.inner.map_end(map)
    }

    /// A handle at another depth is refused and nothing changes; otherwise
    /// the level closes and the inner encoder does the rest.
    open spec fn entry_end_spec(&self, closer: PoisonWrapper<E::EntryCloser>, r: Result<(), Error>, next: Self) -> bool {
        if closer.depth() != self.depth() {
            refused(r) && next == *self
        } else {
            next.depth() == self.depth() - 1 && self.inner().entry_end_spec(closer.inner(), r, next.inner())
        }
    }

    /// Closes the entry level.
    fn entry_end(&mut self, closer: Self::EntryCloser) -> (r: Result<(), Error>) {
        let closer = self.pop(closer)?;
        self.inner.entry_end(closer)
    }

    /// A handle at another depth is refused and nothing changes; otherwise
    /// the level closes and the inner encoder does the rest.
    open spec fn tuple_struct_end_spec(&self, s: PoisonWrapper<E::TupleStructEncoder>, r: Result<(), Error>, next: Self) -> bool {
        if s.depth() != self.depth() {
            refused(r) && next == *self
        } else {
            next.depth() == self.depth() - 1 && self.inner().tuple_struct_end_spec(s.inner(), r, next.inner())
        }
    }

    /// Closes the tuple-struct level.
    fn tuple_struct_end(&mut self, s: Self::TupleStructEncoder) -> (r: Result<(), Error>) {
        let s = self.pop(s)?;
        self.inner.tuple_struct_end(s)
    }

    /// A handle at another depth is refused and nothing changes; otherwise
    /// the level closes and the inner encoder does the rest.
    open spec fn struct_end_spec(&self, s: PoisonWrapper<E::StructEncoder>, r: Result<(), Error>, next: Self) -> bool {
        if s.depth() != self.depth() {
            refused(r) && next == *self
        } else {
            next.depth() == self.depth() - 1 && self.inner().struct_end_spec(s.inner(), r, next.inner())
        }
    }

    /// Closes the struct level.
    fn struct_end(&mut self, s: Self::StructEncoder) -> (r: Result<(), Error>) {
        let s = self.pop(s)?;
        self.inner.struct_end(s)
    }

    /// A handle at another depth is refused and nothing changes; otherwise
    /// the level closes and the inner encoder does the rest.
    open spec fn tuple_variant_end_spec(&self, v: PoisonWrapper<E::TupleVariantEncoder>, r: Result<(), Error>, next: Self) -> bool {
        if v.depth() != self.depth() {
            refused(r) && next == *self
        } else {
            next.depth() == self.depth() - 1 && self.inner().tuple_variant_end_spec(v.inner(), r, next.inner())
        }
    }

    /// Closes the tuple-variant level.
    fn tuple_variant_end(&mut self, v: Self::TupleVariantEncoder) -> (r: Result<(), Error>) {
        let v = self.pop(v)?;
        self.inner.tuple_variant_end(v)
    }

    /// A handle at another depth is refused and nothing changes; otherwise
    /// the level closes and the inner encoder does the rest.
    open spec fn struct_variant_end_spec(&self, v: PoisonWrapper<E::StructVariantEncoder>, r: Result<(), Error>, next: Self) -> bool {
        if v.depth() != self.depth() {
            refused(r) && next == *self
        } else {
            next.depth() == self.depth() - 1 && self.inner().struct_variant_end_spec(v.inner(), r, next.inner())
        }
    }

    /// Closes the struct-variant level.
    fn struct_variant_end(&mut self, v: Self::StructVariantEncoder) -> (r: Result<(), Error>) {
        let v = self.pop(v)?;
        self.inner.struct_variant_end(v)
    }

    /// A handle at another depth is refused and nothing changes; otherwise
    /// the handle of the compound takes the place of the one given.
    open spec fn encode_tuple_struct_spec(
        &self,
        any: PoisonWrapper<E::AnySpecEncoder>,
        name: &'static str, len: usize,
        r: Result<PoisonWrapper<E::TupleStructEncoder>, Error>,
        next: Self,
    ) -> bool {
        if any.depth() != self.depth() {
            refused(r) && next == *self
        } else {
            match r {
                Ok(h) => h.depth() == self.depth() && next.depth() == self.depth()
                    && self.inner().encode_tuple_struct_spec(any.inner(), name, len, Ok(h.inner()), next.inner()),
                Err(e) => next.depth() == self.depth() - 1
                    && self.inner().encode_tuple_struct_spec(any.inner(), name, len, Err(e), next.inner()),
            }
        }
    }

    fn encode_tuple_struct(&mut self, any: Self::AnySpecEncoder, name: &'static str, len: usize) -> (r: Result<Self::TupleStructEncoder, Error>) {
        let any = self.pop(any)?;
        let encoder = self.inner.encode_tuple_struct(any, name, len)?;
        Ok(self.push(encoder))
    }

    /// A handle at another depth is refused and nothing changes; otherwise
    /// the handle of the compound takes the place of the one given.
    open spec fn encode_struct_spec(
        &self,
        any: PoisonWrapper<E::AnySpecEncoder>,
        name: &'static str, fields: &'static [&'static str],
        r: Result<PoisonWrapper<E::StructEncoder>, Error>,
        next: Self,
    ) -> bool {
        if any.depth() != self.depth() {
            refused(r) && next == *self
        } else {
            match r {
                Ok(h) => h.depth() == self.depth() && next.depth() == self.depth()
                    && self.inner().encode_struct_spec(any.inner(), name, fields, Ok(h.inner()), next.inner()),
                Err(e) => next.depth() == self.depth() - 1
                    && self.inner().encode_struct_spec(any.inner(), name, fields, Err(e), next.inner()),
            }
        }
    }

    fn encode_struct(&mut self, any: Self::AnySpecEncoder, name: &'static str, fields: &'static [&'static str]) -> (r: Result<Self::StructEncoder, Error>) {
        let any = self.pop(any)?;
        let encoder = self.inner.encode_struct(any, name, fields)?;
        Ok(self.push(encoder))
    }

    /// A handle at another depth is refused and nothing changes; otherwise
    /// the handle of the compound takes the place of the one given.
    open spec fn encode_tuple_variant_spec(
        &self,
        any: PoisonWrapper<E::AnySpecEncoder>,
        name: &'static str, variants: &'static [&'static str], variant_index: usize, len: usize,
        r: Result<PoisonWrapper<E::TupleVariantEncoder>, Error>,
        next: Self,
    ) -> bool {
        if any.depth() != self.depth() {
            refused(r) && next == *self
        } else {
            match r {
                Ok(h) => h.depth() == self.depth() && next.depth() == self.depth()
                    && self.inner().encode_tuple_variant_spec(any.inner(), name, variants, variant_index, len, Ok(h.inner()), next.inner()),
                Err(e) => next.depth() == self.depth() - 1
                    && self.inner().encode_tuple_variant_spec(any.inner(), name, variants, variant_index, len, Err(e), next.inner()),
            }
        }
    }

    fn encode_tuple_variant(&mut self, any: Self::AnySpecEncoder, name: &'static str, variants: &'static [&'static str], variant_index: usize, len: usize) -> (r: Result<Self::TupleVariantEncoder, Error>) {
        let any = self.pop(any)?;
        let encoder = self.inner.encode_tuple_variant(any, name, variants, variant_index, len)?;
        Ok(self.push(encoder))
    }

    /// A handle at another depth is refused and nothing changes; otherwise
    /// the handle of the compound takes the place of the one given.
    open spec fn encode_struct_variant_spec(
        &self,
        any: PoisonWrapper<E::AnySpecEncoder>,
        name: &'static str, variants: &'static [&'static str], variant_index: usize, fields: &'static [&'static str],
        r: Result<PoisonWrapper<E::StructVariantEncoder>, Error>,
        next: Self,
    ) -> bool {
        if any.depth() != self.depth() {
            refused(r) && next == *self
        } else {
            match r {
                Ok(h) => h.depth() == self.depth() && next.depth() == self.depth()
                    && self.inner().encode_struct_variant_spec(any.inner(), name, variants, variant_index, fields, Ok(h.inner()), next.inner()),
                Err(e) => next.depth() == self.depth() - 1
                    && self.inner().encode_struct_variant_spec(any.inner(), name, variants, variant_index, fields, Err(e), next.inner()),
            }
        }
    }

    fn encode_struct_variant(&mut self, any: Self::AnySpecEncoder, name: &'static str, variants: &'static [&'static str], variant_index: usize, fields: &'static [&'static str]) -> (r: Result<Self::StructVariantEncoder, Error>) {
        let any = self.pop(any)?;
        let encoder = self.inner.encode_struct_variant(any, name, variants, variant_index, fields)?;
        Ok(self.push(encoder))
    }

    /// A handle at another depth is refused and nothing changes; otherwise
    /// the handle of the compound takes the place of the one given.
    open spec fn encode_seq_spec(
        &self,
        any: PoisonWrapper<E::AnySpecEncoder>,
        len: Option<usize>,
        r: Result<PoisonWrapper<E::SeqEncoder>, Error>,
        next: Self,
    ) -> bool {
        if any.depth() != self.depth() {
            refused(r) && next == *self
        } else {
            match r {
                Ok(h) => h.depth() == self.depth() && next.depth() == self.depth()
                    && self.inner().encode_seq_spec(any.inner(), len, Ok(h.inner()), next.inner()),
                Err(e) => next.depth() == self.depth() - 1
                    && self.inner().encode_seq_spec(any.inner(), len, Err(e), next.inner()),
            }
        }
    }

    fn encode_seq(&mut self, any: Self::AnySpecEncoder, len: Option<usize>) -> (r: Result<Self::SeqEncoder, Error>) {
        let any = self.pop(any)?;
        let encoder = self.inner.encode_seq(any, len)?;
        Ok(self.push(encoder))
    }

    /// A handle at another depth is refused and nothing changes; otherwise
    /// the handle of the compound takes the place of the one given.
    open spec fn encode_tuple_spec(
        &self,
        any: PoisonWrapper<E::AnySpecEncoder>,
        len: usize,
        r: Result<PoisonWrapper<E::TupleEncoder>, Error>,
        next: Self,
    ) -> bool {
        if any.depth() != self.depth() {
            refused(r) && next == *self
        } else {
            match r {
                Ok(h) => h.depth() == self.depth() && next.depth() == self.depth()
                    && self.inner().encode_tuple_spec(any.inner(), len, Ok(h.inner()), next.inner()),
                Err(e) => next.depth() == self.depth() - 1
                    && self.inner().encode_tuple_spec(any.inner(), len, Err(e), next.inner()),
            }
        }
    }

    fn encode_tuple(&mut self, any: Self::AnySpecEncoder, len: usize) -> (r: Result<Self::TupleEncoder, Error>) {
        let any = self.pop(any)?;
        let encoder = self.inner.encode_tuple(any, len)?;
        Ok(self.push(encoder))
    }

    /// A handle at another depth is refused and nothing changes; otherwise
    /// the handle of the compound takes the place of the one given.
    open spec fn encode_map_spec(
        &self,
        any: PoisonWrapper<E::AnySpecEncoder>,
        len: Option<usize>,
        r: Result<PoisonWrapper<E::MapEncoder>, Error>,
        next: Self,
    ) -> bool {
        if any.depth() != self.depth() {
            refused(r) && next == *self
        } else {
            match r {
                Ok(h) => h.depth() == self.depth() && next.depth() == self.depth()
                    && self.inner().encode_map_spec(any.inner(), len, Ok(h.inner()), next.inner()),
                Err(e) => next.depth() == self.depth() - 1
                    && self.inner().encode_map_spec(any.inner(), len, Err(e), next.inner()),
            }
        }
    }

    fn encode_map(&mut self, any: Self::AnySpecEncoder, len: Option<usize>) -> (r: Result<Self::MapEncoder, Error>) {
        let any = self.pop(any)?;
        let encoder = self.inner.encode_map(any, len)?;
        Ok(self.push(encoder))
    }

    /// Refused at the deepest level or with a handle at another depth, and
    /// then nothing changes; otherwise the closer takes the place of the
    /// handle given and the nested value's handle is one level deeper.
    open spec fn encode_some_spec(
        &self,
        any: PoisonWrapper<E::AnySpecEncoder>,
        r: Result<(PoisonWrapper<E::AnySpecEncoder>, PoisonWrapper<E::SomeCloser>), Error>,
        next: Self,
    ) -> bool {
        if self.depth() == usize::MAX || any.depth() != self.depth() {
            refused(r) && next == *self
        } else {
            match r {
                Ok((x, c)) => c.depth() == self.depth() && x.depth() == self.depth() + 1
                    && next.depth() == self.depth() + 1
                    && self.inner().encode_some_spec(any.inner(), Ok((x.inner(), c.inner())), next.inner()),
                Err(e) => next.depth() == self.depth() - 1
                    && self.inner().encode_some_spec(any.inner(), Err(e), next.inner()),
            }
        }
    }

    fn encode_some(&mut self, any: Self::AnySpecEncoder) -> (r: Result<(Self::AnySpecEncoder, Self::SomeCloser), Error>) {
        if self.depth == usize::MAX {
            return Err(Error::EncodePoison(EncodePoisonError::UnexpectedEncodeState));
        }
        let any = self.pop(any)?;
        let (some_encoder, some_closer) = self.inner.encode_some(any)?;
        let some_closer = self.push(some_closer);
        let some_encoder = self.push(some_encoder);
        Ok((some_encoder, some_closer))
    }

    /// Refused at the deepest level or with a handle at another depth, and
    /// then nothing changes; otherwise the closer takes the place of the
    /// handle given and the nested value's handle is one level deeper.
    open spec fn entry_encode_value_spec(
        &self,
        value: PoisonWrapper<E::ValueEncoder>,
        r: Result<(PoisonWrapper<E::AnySpecEncoder>, PoisonWrapper<E::EntryCloser>), Error>,
        next: Self,
    ) -> bool {
        if self.depth() == usize::MAX || value.depth() != self.depth() {
            refused(r) && next == *self
        } else {
            match r {
                Ok((x, c)) => c.depth() == self.depth() && x.depth() == self.depth() + 1
                    && next.depth() == self.depth() + 1
                    && self.inner().entry_encode_value_spec(value.inner(), Ok((x.inner(), c.inner())), next.inner()),
                Err(e) => next.depth() == self.depth() - 1
                    && self.inner().entry_encode_value_spec(value.inner(), Err(e), next.inner()),
            }
        }
    }

    fn entry_encode_value(&mut self, value: Self::ValueEncoder) -> (r: Result<(Self::AnySpecEncoder, Self::EntryCloser), Error>) {
        if self.depth == usize::MAX {
            return Err(Error::EncodePoison(EncodePoisonError::UnexpectedEncodeState));
        }
        let value = self.pop(value)?;
        let (value_encoder, closer) = self.inner.entry_encode_value(value)?;
        let closer = self.push(closer);
        let value_encoder = self.push(value_encoder);
        Ok((value_encoder, closer))
    }

    /// Refused at the deepest level or with the compound's handle at another
    /// depth, and then nothing changes; otherwise the element's handle is one
    /// level deeper.
    open spec fn tuple_encode_element_spec(
        &self,
        tuple: PoisonWrapper<E::TupleEncoder>,
        tuple_after: PoisonWrapper<E::TupleEncoder>,
        r: Result<PoisonWrapper<E::AnySpecEncoder>, Error>,
        next: Self,
    ) -> bool {
        &&& tuple_after.depth() == tuple.depth()
        &&& if self.depth() == usize::MAX || tuple.depth() != self.depth() {
            refused(r) && next == *self && tuple_after == tuple
        } else {
            match r {
                Ok(x) => x.depth() == self.depth() + 1 && next.depth() == self.depth() + 1
                    && self.inner().tuple_encode_element_spec(tuple.inner(), tuple_after.inner(), Ok(x.inner()), next.inner()),
                Err(e) => next.depth() == self.depth()
                    && self.inner().tuple_encode_element_spec(tuple.inner(), tuple_after.inner(), Err(e), next.inner()),
            }
        }
    }

    fn tuple_encode_element(&mut self, tuple: &mut Self::TupleEncoder) -> (r: Result<Self::AnySpecEncoder, Error>) {
        if self.depth == usize::MAX {
            return Err(Error::EncodePoison(EncodePoisonError::UnexpectedEncodeState));
        }
        let h = self.peek(tuple)?;
        let encoder = self.inner.tuple_encode_element(h)?;
        Ok(self.push(encoder))
    }

    /// Refused at the deepest level or with the compound's handle at another
    /// depth, and then nothing changes; otherwise the element's handle is one
    /// level deeper.
    open spec fn seq_encode_element_spec(
        &self,
        seq: PoisonWrapper<E::SeqEncoder>,
        seq_after: PoisonWrapper<E::SeqEncoder>,
        r: Result<PoisonWrapper<E::AnySpecEncoder>, Error>,
        next: Self,
    ) -> bool {
        &&& seq_after.depth() == seq.depth()
        &&& if self.depth() == usize::MAX || seq.depth() != self.depth() {
            refused(r) && next == *self && seq_after == seq
        } else {
            match r {
                Ok(x) => x.depth() == self.depth() + 1 && next.depth() == self.depth() + 1
                    && self.inner().seq_encode_element_spec(seq.inner(), seq_after.inner(), Ok(x.inner()), next.inner()),
                Err(e) => next.depth() == self.depth()
                    && self.inner().seq_encode_element_spec(seq.inner(), seq_after.inner(), Err(e), next.inner()),
            }
        }
    }

    fn seq_encode_element(&mut self, seq: &mut Self::SeqEncoder) -> (r: Result<Self::AnySpecEncoder, Error>) {
        if self.depth == usize::MAX {
            return Err(Error::EncodePoison(EncodePoisonError::UnexpectedEncodeState));
        }
        let h = self.peek(seq)?;
        let encoder = self.inner.seq_encode_element(h)?;
        Ok(self.push(encoder))
    }

    /// Refused at the deepest level or with the compound's handle at another
    /// depth, and then nothing changes; otherwise the element's handle is one
    /// level deeper.
    open spec fn tuple_struct_encode_field_spec(
        &self,
        s: PoisonWrapper<E::TupleStructEncoder>,
        s_after: PoisonWrapper<E::TupleStructEncoder>,
        r: Result<PoisonWrapper<E::AnySpecEncoder>, Error>,
        next: Self,
    ) -> bool {
        &&& s_after.depth() == s.depth()
        &&& if self.depth() == usize::MAX || s.depth() != self.depth() {
            refused(r) && next == *self && s_after == s
        } else {
            match r {
                Ok(x) => x.depth() == self.depth() + 1 && next.depth() == self.depth() + 1
                    && self.inner().tuple_struct_encode_field_spec(s.inner(), s_after.inner(), Ok(x.inner()), next.inner()),
                Err(e) => next.depth() == self.depth()
                    && self.inner().tuple_struct_encode_field_spec(s.inner(), s_after.inner(), Err(e), next.inner()),
            }
        }
    }

    fn tuple_struct_encode_field(&mut self, s: &mut Self::TupleStructEncoder) -> (r: Result<Self::AnySpecEncoder, Error>) {
        if self.depth == usize::MAX {
            return Err(Error::EncodePoison(EncodePoisonError::UnexpectedEncodeState));
        }
        let h = self.peek(s)?;
        let encoder = self.inner.tuple_struct_encode_field(h)?;
        Ok(self.push(encoder))
    }

    /// Refused at the deepest level or with the compound's handle at another
    /// depth, and then nothing changes; otherwise the element's handle is one
    /// level deeper.
    open spec fn struct_encode_field_spec(
        &self,
        s: PoisonWrapper<E::StructEncoder>,
        s_after: PoisonWrapper<E::StructEncoder>,
        field: &'static str, r: Result<PoisonWrapper<E::AnySpecEncoder>, Error>,
        next: Self,
    ) -> bool {
        &&& s_after.depth() == s.depth()
        &&& if self.depth() == usize::MAX || s.depth() != self.depth() {
            refused(r) && next == *self && s_after == s
        } else {
            match r {
                Ok(x) => x.depth() == self.depth() + 1 && next.depth() == self.depth() + 1
                    && self.inner().struct_encode_field_spec(s.inner(), s_after.inner(), field, Ok(x.inner()), next.inner()),
                Err(e) => next.depth() == self.depth()
                    && self.inner().struct_encode_field_spec(s.inner(), s_after.inner(), field, Err(e), next.inner()),
            }
        }
    }

    fn struct_encode_field(&mut self, s: &mut Self::StructEncoder, field: &'static str) -> (r: Result<Self::AnySpecEncoder, Error>) {
        if self.depth == usize::MAX {
            return Err(Error::EncodePoison(EncodePoisonError::UnexpectedEncodeState));
        }
        let h = self.peek(s)?;
        let encoder = self.inner.struct_encode_field(h, field)?;
        Ok(self.push(encoder))
    }

    /// Refused at the deepest level or with the compound's handle at another
    /// depth, and then nothing changes; otherwise the element's handle is one
    /// level deeper.
    open spec fn tuple_variant_encode_field_spec(
        &self,
        v: PoisonWrapper<E::TupleVariantEncoder>,
        v_after: PoisonWrapper<E::TupleVariantEncoder>,
        r: Result<PoisonWrapper<E::AnySpecEncoder>, Error>,
        next: Self,
    ) -> bool {
        &&& v_after.depth() == v.depth()
        &&& if self.depth() == usize::MAX || v.depth() != self.depth() {
            refused(r) && next == *self && v_after == v
        } else {
            match r {
                Ok(x) => x.depth() == self.depth() + 1 && next.depth() == self.depth() + 1
                    && self.inner().tuple_variant_encode_field_spec(v.inner(), v_after.inner(), Ok(x.inner()), next.inner()),
                Err(e) => next.depth() == self.depth()
                    && self.inner().tuple_variant_encode_field_spec(v.inner(), v_after.inner(), Err(e), next.inner()),
            }
        }
    }

    fn tuple_variant_encode_field(&mut self, v: &mut Self::TupleVariantEncoder) -> (r: Result<Self::AnySpecEncoder, Error>) {
        if self.depth == usize::MAX {
            return Err(Error::EncodePoison(EncodePoisonError::UnexpectedEncodeState));
        }
        let h = self.peek(v)?;
        let encoder = self.inner.tuple_variant_encode_field(h)?;
        Ok(self.push(encoder))
    }

    /// Refused at the deepest level or with the compound's handle at another
    /// depth, and then nothing changes; otherwise the element's handle is one
    /// level deeper.
    open spec fn struct_variant_encode_field_spec(
        &self,
        v: PoisonWrapper<E::StructVariantEncoder>,
        v_after: PoisonWrapper<E::StructVariantEncoder>,
        field: &'static str, r: Result<PoisonWrapper<E::AnySpecEncoder>, Error>,
        next: Self,
    ) -> bool {
        &&& v_after.depth() == v.depth()
        &&& if self.depth() == usize::MAX || v.depth() != self.depth() {
            refused(r) && next == *self && v_after == v
        } else {
            match r {
                Ok(x) => x.depth() == self.depth() + 1 && next.depth() == self.depth() + 1
                    && self.inner().struct_variant_encode_field_spec(v.inner(), v_after.inner(), field, Ok(x.inner()), next.inner()),
                Err(e) => next.depth() == self.depth()
                    && self.inner().struct_variant_encode_field_spec(v.inner(), v_after.inner(), field, Err(e), next.inner()),
            }
        }
    }

    fn struct_variant_encode_field(&mut self, v: &mut Self::StructVariantEncoder, field: &'static str) -> (r: Result<Self::AnySpecEncoder, Error>) {
        if self.depth == usize::MAX {
            return Err(Error::EncodePoison(EncodePoisonError::UnexpectedEncodeState));
        }
        let h = self.peek(v)?;
        let encoder = self.inner.struct_variant_encode_field(h, field)?;
        Ok(self.push(encoder))
    }

    /// Refused two levels below the deepest one or with the map's handle at
    /// another depth, and then nothing changes; otherwise the entry's value
    /// handle is one level deeper and its key handle two levels deeper.
    open spec fn map_encode_element_spec(
        &self,
        map: PoisonWrapper<E::MapEncoder>,
        map_after: PoisonWrapper<E::MapEncoder>,
        r: Result<(PoisonWrapper<E::AnySpecEncoder>, PoisonWrapper<E::ValueEncoder>), Error>,
        next: Self,
    ) -> bool {
        &&& map_after.depth() == map.depth()
        &&& if self.depth() >= usize::MAX - 1 || map.depth() != self.depth() {
            refused(r) && next == *self && map_after == map
        } else {
            match r {
                Ok((k, v)) => v.depth() == self.depth() + 1 && k.depth() == self.depth() + 2
                    && next.depth() == self.depth() + 2
                    && self.inner().map_encode_element_spec(map.inner(), map_after.inner(), Ok((k.inner(), v.inner())), next.inner()),
                Err(e) => next.depth() == self.depth()
                    && self.inner().map_encode_element_spec(map.inner(), map_after.inner(), Err(e), next.inner()),
            }
        }
    }

    fn map_encode_element(&mut self, map: &mut Self::MapEncoder) -> (r: Result<
        (Self::AnySpecEncoder, Self::ValueEncoder),
        Error,
    >) {
        if self.depth >= usize::MAX - 1 {
            return Err(Error::EncodePoison(EncodePoisonError::UnexpectedEncodeState));
        }
        let h = self.peek(map)?;
        let (key, value) = self.inner.map_encode_element(h)?;
        let value = self.push(value);
        let key = self.push(key);
        Ok((key, value))
    }

    open spec fn human_readable_spec(&self) -> bool {
        self.inner().human_readable_spec()
    }

    fn is_human_readable(&self) -> (r: bool) {
        self.inner.is_human_readable()
    }
}

} // verus!
