//! Skipping a value: decoding it with the `Ignore` hint and walking through
//! whatever it holds, without keeping any of it.
//!
//! The walk always ends, for every decoder: a skipping step that opens a
//! nested value has consumed input, and each item of a sequence or map lowers
//! the number of items left.
use vstd::prelude::*;
use crate::decode::{DecodeHint, DecodeVariantHint, SimpleDecoderView, SpecDecoder};
use crate::error::Error;

verus! {

/// Whether a view holds a handle to a nested value.
pub open spec fn view_opens<D: SpecDecoder>(v: SimpleDecoderView<D>) -> bool {
    v is OptionSome || v is Sequence || v is Mapping || v is Enum
}

/// Always true: a trigger marker.  The existential steps of `skips` and
/// `struct_next` name the result and state of a step through it, so that a
/// proof instantiates them by asserting `picked` of the values it has.
pub open spec fn picked<A, B>(a: A, b: B) -> bool {
    true
}

/// Always true: a trigger marker, as `picked`, for a step that comes to a
/// state alone.
pub open spec fn reached<D>(d: D) -> bool {
    true
}

/// Whether `r` and `d` are a result and a following state that skipping the
/// value of `any` from the state `d0` may give: the value is decoded with
/// the `Ignore` hint, then what it holds is walked through; each step's
/// outcome is one its decoder allows, and the first failure is what comes
/// out.
pub open spec fn skips<D: SpecDecoder>(d0: D, any: D::AnyDecoder, r: Result<(), Error>, d: D) -> bool
    decreases d0.input_left(), 2nat, 0nat,
{
    exists|v: Result<SimpleDecoderView<D>, Error>, d1: D|
        #[trigger] d0.decode_state(any, DecodeHint::Ignore, v, d1) && d0.decode_spec(any, DecodeHint::Ignore, v)
            && match v {
            Err(e) => r == Err::<(), Error>(e) && d == d1,
            Ok(view) => view_skips(d1, view, d0.input_left(), r, d),
        }
}

/// Walking through what a view holds, from the state `d0`; `bound` is the
/// input left before the step that gave the view.
pub open spec fn view_skips<D: SpecDecoder>(
    d0: D,
    view: SimpleDecoderView<D>,
    bound: nat,
    r: Result<(), Error>,
    d: D,
) -> bool
    decreases bound, 1nat, 0nat,
{
    match view {
        SimpleDecoderView::OptionSome(x) => some_skips(d0, x, bound, r, d),
        SimpleDecoderView::Sequence(x) => seq_skips(d0, x, bound, r, d),
        SimpleDecoderView::Mapping(x) => map_skips(d0, x, bound, r, d),
        SimpleDecoderView::Enum(x) => enum_skips(d0, x, bound, r, d),
        _ => r == Ok::<(), Error>(()) && d == d0,
    }
}

/// Skipping the value inside a present option, then ending the option.
pub open spec fn some_skips<D: SpecDecoder>(
    d0: D,
    some: D::SomeDecoder,
    bound: nat,
    r: Result<(), Error>,
    d: D,
) -> bool
    decreases bound, 0nat, 0nat,
{
    d0.input_left() < bound && exists|d1: D|
        #[trigger] d0.some_inner_state(some, d1) && match d0.some_inner_spec(some) {
            Err(e) => r == Err::<(), Error>(e) && d == d1,
            Ok((a, c)) => d1.input_left() <= d0.input_left() && exists|r2: Result<(), Error>, d2: D|
                #[trigger] picked(r2, d2) && skips(d1, a, r2, d2) && match r2 {
                    Err(e) => r == Err::<(), Error>(e) && d == d2,
                    Ok(_) => r == d2.some_end_spec(c) && d2.some_end_state(c, d),
                },
        }
}

/// Skipping every item of a sequence, then ending it.
pub open spec fn seq_skips<D: SpecDecoder>(
    d0: D,
    seq: D::SeqDecoder,
    bound: nat,
    r: Result<(), Error>,
    d: D,
) -> bool
    decreases bound, 0nat, D::seq_left(seq),
{
    d0.input_left() < bound && exists|seq1: D::SeqDecoder, d1: D|
        #[trigger] d0.seq_next_state(seq, seq1, d1) && match d0.seq_next_spec(seq) {
            Err(e) => r == Err::<(), Error>(e) && d == d1,
            Ok(None) => r == d1.seq_end_spec(seq1) && d1.seq_end_state(seq1, d),
            Ok(Some(a)) => D::seq_left(seq1) < D::seq_left(seq) && d1.input_left() <= d0.input_left()
                && exists|r2: Result<(), Error>, d2: D|
                #[trigger] picked(r2, d2) && skips(d1, a, r2, d2) && match r2 {
                    Err(e) => r == Err::<(), Error>(e) && d == d2,
                    Ok(_) => d2.input_left() <= d1.input_left() && seq_skips(d2, seq1, bound, r, d),
                },
        }
}

/// Skipping the key and the value of every entry of a map, then ending it.
pub open spec fn map_skips<D: SpecDecoder>(
    d0: D,
    map: D::MapDecoder,
    bound: nat,
    r: Result<(), Error>,
    d: D,
) -> bool
    decreases bound, 0nat, D::map_left(map),
{
    d0.input_left() < bound && exists|map1: D::MapDecoder, k: Result<Option<D::KeyDecoder>, Error>, d1: D|
        #[trigger] d0.map_next_state(map, map1, k, d1) && d0.map_next_spec(map, k) && match k {
            Err(e) => r == Err::<(), Error>(e) && d == d1,
            Ok(None) => r == d1.map_end_spec(map1) && d1.map_end_state(map1, d),
            Ok(Some(key)) => D::map_left(map1) < D::map_left(map) && d1.input_left() <= d0.input_left()
                && exists|d2: D|
                #[trigger] reached(d2) && d1.entry_key_state(key, d2) && match d1.entry_key_spec(key) {
                    Err(e) => r == Err::<(), Error>(e) && d == d2,
                    Ok((ka, value)) => d2.input_left() <= d1.input_left() && exists|r3: Result<(), Error>, d3: D|
                        #[trigger] picked(r3, d3) && skips(d2, ka, r3, d3) && match r3 {
                            Err(e) => r == Err::<(), Error>(e) && d == d3,
                            Ok(_) => d3.input_left() <= d2.input_left() && exists|d4: D|
                                #[trigger] reached(d4) && d3.entry_value_state(value, d4) && match d3.entry_value_spec(value) {
                                    Err(e) => r == Err::<(), Error>(e) && d == d4,
                                    Ok(va) => d4.input_left() <= d3.input_left() && exists|r5: Result<(), Error>, d5: D|
                                        #[trigger] picked(r5, d5) && skips(d4, va, r5, d5) && match r5 {
                                            Err(e) => r == Err::<(), Error>(e) && d == d5,
                                            Ok(_) => d5.input_left() <= d4.input_left() && map_skips(d5, map1, bound, r, d),
                                        },
                                },
                        },
                },
        }
}

/// Skipping the discriminant and the payload of an enum value; the enum is
/// not ended.
pub open spec fn enum_skips<D: SpecDecoder>(
    d0: D,
    e: D::DiscriminantDecoder,
    bound: nat,
    r: Result<(), Error>,
    d: D,
) -> bool
    decreases bound, 0nat, 0nat,
{
    d0.input_left() < bound && exists|d1: D|
        #[trigger] d0.enum_discriminant_state(e, d1) && match d0.enum_discriminant_spec(e) {
            Err(err) => r == Err::<(), Error>(err) && d == d1,
            Ok((disc, variant)) => d1.input_left() <= d0.input_left() && exists|r2: Result<(), Error>, d2: D|
                #[trigger] picked(r2, d2) && skips(d1, disc, r2, d2) && match r2 {
                    Err(err) => r == Err::<(), Error>(err) && d == d2,
                    Ok(_) => d2.input_left() <= d1.input_left()
                        && exists|w: Result<(SimpleDecoderView<D>, D::EnumCloser), Error>, d3: D|
                        #[trigger] picked(w, d3) && d2.enum_variant_state(variant, DecodeVariantHint::Ignore, w, d3)
                            && d2.enum_variant_spec(variant, DecodeVariantHint::Ignore, w) && match w {
                            Err(err) => r == Err::<(), Error>(err) && d == d3,
                            Ok((view, c)) => (view_opens(view) ==> d3.input_left() < d2.input_left())
                                && view_skips(d3, view, d2.input_left(), r, d),
                        },
                },
        }
}

/// Skips the value that `any` stands for.
pub fn ignore<D: SpecDecoder>(decoder: &mut D, any: D::AnyDecoder) -> (r: Result<(), Error>)
    ensures
        skips(*old(decoder), any, r, *final(decoder)),
        r is Ok ==> final(decoder).input_left() <= old(decoder).input_left(),
    decreases old(decoder).input_left(), 2nat,
{
    let ghost d0 = *decoder;
    let step = decoder.decode(any, DecodeHint::Ignore);
    let ghost d1 = *decoder;
    let ghost v = step;
    assert(d0.decode_state(any, DecodeHint::Ignore, v, d1));
    match step {
        Err(e) => Err(e),
        Ok(view) => ignore_view(decoder, view, Ghost(d0.input_left())),
    }
}

/// Walks through what a view holds.  `bound` is the input left before the
/// step that gave the view, which has lowered it if the view nests.
fn ignore_view<D: SpecDecoder>(decoder: &mut D, view: SimpleDecoderView<D>, Ghost(bound): Ghost<nat>) -> (r: Result<
    (),
    Error,
>)
    requires
        view_opens(view) ==> old(decoder).input_left() < bound,
    ensures
        view_skips(*old(decoder), view, bound, r, *final(decoder)),
        r is Ok ==> final(decoder).input_left() <= old(decoder).input_left(),
    decreases bound, 1nat,
{
    match view {
        SimpleDecoderView::OptionSome(x) => ignore_some(decoder, x, Ghost(bound)),
        SimpleDecoderView::Sequence(x) => ignore_seq(decoder, x, Ghost(bound)),
        SimpleDecoderView::Mapping(x) => ignore_map(decoder, x, Ghost(bound)),
        SimpleDecoderView::Enum(x) => ignore_enum(decoder, x, Ghost(bound)),
        _ => Ok(()),
    }
}

/// Skips the value inside a present option, then ends the option.
fn ignore_some<D: SpecDecoder>(decoder: &mut D, some: D::SomeDecoder, Ghost(bound): Ghost<nat>) -> (r: Result<
    (),
    Error,
>)
    requires
        old(decoder).input_left() < bound,
    ensures
        some_skips(*old(decoder), some, bound, r, *final(decoder)),
        r is Ok ==> final(decoder).input_left() <= old(decoder).input_left(),
    decreases bound, 0nat,
{
    let ghost d0 = *decoder;
    let step = decoder.decode_some_inner(some);
    let ghost d1 = *decoder;
    assert(d0.some_inner_state(some, d1));
    let (any, closer) = match step {
        Ok(x) => x,
        Err(e) => return Err(e),
    };
    let inner = ignore(decoder, any);
    let ghost d2 = *decoder;
    assert(picked(inner, d2) && skips(d1, any, inner, d2));
    match inner {
        Err(e) => Err(e),
        Ok(()) => decoder.decode_some_end(closer),
    }
}

/// Skips every item of a sequence, then ends it.
fn ignore_seq<D: SpecDecoder>(decoder: &mut D, seq0: D::SeqDecoder, Ghost(bound): Ghost<nat>) -> (r: Result<
    (),
    Error,
>)
    requires
        old(decoder).input_left() < bound,
    ensures
        seq_skips(*old(decoder), seq0, bound, r, *final(decoder)),
        r is Ok ==> final(decoder).input_left() <= old(decoder).input_left(),
    decreases bound, 0nat,
{
    let ghost d0 = *decoder;
    let mut seq = seq0;
    loop
        invariant
            decoder.input_left() <= d0.input_left(),
            d0 == *old(decoder),
            d0.input_left() < bound,
            forall|r: Result<(), Error>, d: D|
                #[trigger] seq_skips(*decoder, seq, bound, r, d) ==> seq_skips(d0, seq0, bound, r, d),
        decreases D::seq_left(seq),
    {
        let ghost dc = *decoder;
        let ghost sc = seq;
        let next = decoder.decode_seq_next(&mut seq);
        let ghost d1 = *decoder;
        assert(dc.seq_next_state(sc, seq, d1));
        match next {
            Err(e) => {
                assert(seq_skips(dc, sc, bound, Err(e), d1));
                return Err(e);
            },
            Ok(Some(any)) => {
                let inner = ignore(decoder, any);
                let ghost d2 = *decoder;
                assert(picked(inner, d2) && skips(d1, any, inner, d2));
                match inner {
                    Err(e) => {
                        assert(seq_skips(dc, sc, bound, Err(e), d2));
                        return Err(e);
                    },
                    Ok(()) => {
                        assert forall|r: Result<(), Error>, d: D|
                            #[trigger] seq_skips(*decoder, seq, bound, r, d) implies seq_skips(d0, seq0, bound, r, d) by {
                            assert(seq_skips(dc, sc, bound, r, d));
                        }
                    },
                }
            },
            Ok(None) => {
                let end = decoder.decode_seq_end(seq);
                assert(seq_skips(dc, sc, bound, end, *decoder));
                return end;
            },
        }
    }
}

/// Skips the key and the value of every entry of a map, then ends it.
fn ignore_map<D: SpecDecoder>(decoder: &mut D, map0: D::MapDecoder, Ghost(bound): Ghost<nat>) -> (r: Result<
    (),
    Error,
>)
    requires
        old(decoder).input_left() < bound,
    ensures
        map_skips(*old(decoder), map0, bound, r, *final(decoder)),
        r is Ok ==> final(decoder).input_left() <= old(decoder).input_left(),
    decreases bound, 0nat,
{
    let ghost d0 = *decoder;
    let mut map = map0;
    loop
        invariant
            decoder.input_left() <= d0.input_left(),
            d0 == *old(decoder),
            d0.input_left() < bound,
            forall|r: Result<(), Error>, d: D|
                #[trigger] map_skips(*decoder, map, bound, r, d) ==> map_skips(d0, map0, bound, r, d),
        decreases D::map_left(map),
    {
        let ghost dc = *decoder;
        let ghost mc = map;
        let next = decoder.decode_map_next(&mut map);
        let ghost d1 = *decoder;
        assert(dc.map_next_state(mc, map, next, d1));
        match next {
            Err(e) => {
                assert(map_skips(dc, mc, bound, Err(e), d1));
                return Err(e);
            },
            Ok(None) => {
                let end = decoder.decode_map_end(map);
                assert(map_skips(dc, mc, bound, end, *decoder));
                return end;
            },
            Ok(Some(key)) => {
                let step = decoder.decode_entry_key(key);
                let ghost d2 = *decoder;
                assert(reached(d2) && d1.entry_key_state(key, d2));
                let (ka, value) = match step {
                    Ok(x) => x,
                    Err(e) => {
                        assert(map_skips(dc, mc, bound, Err(e), d2));
                        return Err(e);
                    },
                };
                let inner = ignore(decoder, ka);
                let ghost d3 = *decoder;
                assert(picked(inner, d3) && skips(d2, ka, inner, d3));
                if let Err(e) = inner {
                    assert(map_skips(dc, mc, bound, Err(e), d3));
                    return Err(e);
                }
                let step = decoder.decode_entry_value(value);
                let ghost d4 = *decoder;
                assert(reached(d4) && d3.entry_value_state(value, d4));
                let va = match step {
                    Ok(x) => x,
                    Err(e) => {
                        assert(map_skips(dc, mc, bound, Err(e), d4));
                        return Err(e);
                    },
                };
                let inner = ignore(decoder, va);
                let ghost d5 = *decoder;
                assert(picked(inner, d5) && skips(d4, va, inner, d5));
                if let Err(e) = inner {
                    assert(map_skips(dc, mc, bound, Err(e), d5));
                    return Err(e);
                }
                assert forall|r: Result<(), Error>, d: D|
                    #[trigger] map_skips(*decoder, map, bound, r, d) implies map_skips(d0, map0, bound, r, d) by {
                    assert(map_skips(dc, mc, bound, r, d));
                }
            },
        }
    }
}

/// Skips the discriminant and the payload of an enum value.  The enum's
/// closer is left as it is: the value is not ended.
fn ignore_enum<D: SpecDecoder>(decoder: &mut D, e: D::DiscriminantDecoder, Ghost(bound): Ghost<nat>) -> (r: Result<
    (),
    Error,
>)
    requires
        old(decoder).input_left() < bound,
    ensures
        enum_skips(*old(decoder), e, bound, r, *final(decoder)),
        r is Ok ==> final(decoder).input_left() <= old(decoder).input_left(),
    decreases bound, 0nat,
{
    let ghost d0 = *decoder;
    let step = decoder.decode_enum_discriminant(e);
    let ghost d1 = *decoder;
    assert(d0.enum_discriminant_state(e, d1));
    let (discriminant, variant) = match step {
        Ok(x) => x,
        Err(err) => return Err(err),
    };
    let inner = ignore(decoder, discriminant);
    let ghost d2 = *decoder;
    assert(picked(inner, d2) && skips(d1, discriminant, inner, d2));
    if let Err(err) = inner {
        return Err(err);
    }
    let step = decoder.decode_enum_variant(variant, DecodeVariantHint::Ignore);
    let ghost d3 = *decoder;
    let ghost w = step;
    assert(picked(w, d3) && d2.enum_variant_state(variant, DecodeVariantHint::Ignore, w, d3));
    let (view, _closer) = match step {
        Ok(x) => x,
        Err(err) => return Err(err),
    };
    ignore_view(decoder, view, Ghost(d2.input_left()))
}

} // verus!
