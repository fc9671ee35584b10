//! Decoding a tuple from a sequence handle: exactly the expected number of
//! items must be there.
use vstd::prelude::*;
use crate::decode::SpecDecoder;
use crate::error::{Error, SchemaError};

verus! {

/// Walks the items of a tuple.  The sequence handle is given back to the
/// decoder (ended) once the decoder finds no item left.
pub struct TupleHelper<D: SpecDecoder> {
    seq: Option<D::SeqDecoder>,
}

/// The item handle of a tuple position: the next item, or an error when the
/// sequence has ended early.
pub fn element_or_too_short<A>(next: Option<A>) -> (r: Result<A, Error>)
    ensures
        match next {
            Some(a) => r == Ok::<A, Error>(a),
            None => r == Err::<A, Error>(Error::Schema(SchemaError::TupleTooShort)),
        },
{
    match next {
        Some(a) => Ok(a),
        None => Err(Error::Schema(SchemaError::TupleTooShort)),
    }
}

/// The end of a tuple of `expected` items: the sequence must have no item
/// left.
pub fn end_or_too_long<A>(next: Option<A>, expected: usize) -> (r: Result<(), Error>)
    ensures
        match next {
            Some(_) => r == Err::<(), Error>(Error::Schema(SchemaError::TupleTooLong { expected })),
            None => r == Ok::<(), Error>(()),
        },
{
    match next {
        Some(_) => Err(Error::Schema(SchemaError::TupleTooLong { expected })),
        None => Ok(()),
    }
}

impl<D: SpecDecoder> TupleHelper<D> {
    /// Whether the sequence has not been ended yet.
    pub closed spec fn is_open(&self) -> bool {
        self.seq is Some
    }

    /// The sequence handle being walked, while it is open.
    pub closed spec fn seq(&self) -> D::SeqDecoder {
        self.seq->0
    }

    pub fn new(seq: D::SeqDecoder) -> (r: Self)
        ensures
            r.is_open(),
            r.seq() == seq,
    {
        TupleHelper { seq: Some(seq) }
    }

    /// The decoder's next step over the sequence; where it finds no item,
    /// the sequence is ended.  Gives the step's outcome and whether the
    /// sequence was ended.
    fn next_or_end(&mut self, decoder: &mut D) -> (r: Result<Option<D::AnyDecoder>, Error>)
        requires
            old(self).is_open(),
        ensures
            match old(decoder).seq_next_spec(old(self).seq()) {
                Ok(Some(a)) => r == Ok::<Option<D::AnyDecoder>, Error>(Some(a)) && final(self).is_open()
                    && old(decoder).seq_next_state(old(self).seq(), final(self).seq(), *final(decoder)),
                Err(e) => r == Err::<Option<D::AnyDecoder>, Error>(e),
                Ok(None) => !final(self).is_open() && exists|d1: D, s1: D::SeqDecoder|
                    #[trigger] old(decoder).seq_next_state(old(self).seq(), s1, d1) && r == match d1.seq_end_spec(s1) {
                        Ok(()) => Ok::<Option<D::AnyDecoder>, Error>(None),
                        Err(e) => Err::<Option<D::AnyDecoder>, Error>(e),
                    },
            },
    {
        let mut seq = self.seq.take().unwrap();
        let ghost d0 = *decoder;
        let ghost s0 = seq;
        let next = decoder.decode_seq_next(&mut seq);
        match next {
            Ok(Some(a)) => {
                self.seq = Some(seq);
                Ok(Some(a))
            },
            Ok(None) => {
                let ghost d1 = *decoder;
                let ghost s1 = seq;
                let end = decoder.decode_seq_end(seq);
                assert(d0.seq_next_state(s0, s1, d1));
                match end {
                    Ok(()) => Ok(None),
                    Err(e) => Err(e),
                }
            },
            Err(e) => Err(e),
        }
    }

    /// The handle of the next item: what the decoder's next step over the
    /// sequence gives, which must be an item (`element_or_too_short`); where
    /// there is none, the sequence is ended first.
    pub fn decode_next(&mut self, decoder: &mut D) -> (r: Result<D::AnyDecoder, Error>)
        requires
            old(self).is_open(),
        ensures
            match old(decoder).seq_next_spec(old(self).seq()) {
                Ok(Some(a)) => r == Ok::<D::AnyDecoder, Error>(a) && final(self).is_open()
                    && old(decoder).seq_next_state(old(self).seq(), final(self).seq(), *final(decoder)),
                Err(e) => r == Err::<D::AnyDecoder, Error>(e),
                Ok(None) => !final(self).is_open() && exists|d1: D, s1: D::SeqDecoder|
                    #[trigger] old(decoder).seq_next_state(old(self).seq(), s1, d1) && r == match d1.seq_end_spec(s1) {
                        Ok(()) => Err::<D::AnyDecoder, Error>(Error::Schema(SchemaError::TupleTooShort)),
                        Err(e) => Err::<D::AnyDecoder, Error>(e),
                    },
            },
    {
        let next = self.next_or_end(decoder)?;
        element_or_too_short(next)
    }

    /// Ends a tuple of `expected` items: the decoder's next step over the
    /// sequence must find none (`end_or_too_long`), and the sequence is then
    /// ended.
    pub fn decode_end(self, decoder: &mut D, expected: usize) -> (r: Result<(), Error>)
        requires
            self.is_open(),
        ensures
            match old(decoder).seq_next_spec(self.seq()) {
                Ok(Some(_)) => r == Err::<(), Error>(Error::Schema(SchemaError::TupleTooLong { expected })),
                Err(e) => r == Err::<(), Error>(e),
                Ok(None) => exists|d1: D, s1: D::SeqDecoder|
                    #[trigger] old(decoder).seq_next_state(self.seq(), s1, d1) && r == d1.seq_end_spec(s1),
            },
    {
        let mut this = self;
        let ghost d0 = *decoder;
        let next = this.next_or_end(decoder);
        let r = match next {
            Ok(next) => end_or_too_long(next, expected),
            Err(e) => Err(e),
        };
        proof {
            if d0.seq_next_spec(self.seq()) == Ok::<Option<D::AnyDecoder>, Error>(None) {
                let (d1, s1) = choose|d1: D, s1: D::SeqDecoder|
                    #[trigger] d0.seq_next_state(self.seq(), s1, d1) && next == match d1.seq_end_spec(s1) {
                        Ok(()) => Ok::<Option<D::AnyDecoder>, Error>(None),
                        Err(e) => Err::<Option<D::AnyDecoder>, Error>(e),
                    };
                assert(d0.seq_next_state(self.seq(), s1, d1));
                match d1.seq_end_spec(s1) {
                    Ok(u) => {
                        assert(next == Ok::<Option<D::AnyDecoder>, Error>(None));
                        assert(r == Ok::<(), Error>(()));
                    },
                    Err(e) => {
                        assert(next == Err::<Option<D::AnyDecoder>, Error>(e));
                        assert(r == Err::<(), Error>(e));
                    },
                }
                assert(r == d1.seq_end_spec(s1));
            }
        }
        r
    }
}

} // verus!
