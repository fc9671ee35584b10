//! Decoding an enum value: which variant it is, and the payload of a tuple
//! variant.
use vstd::prelude::*;
use crate::decode::{DecodeHint, DecodeVariantHint, SimpleDecoderView, SpecDecoder, spec_identifier, view_kind};
use crate::decode::tuple_helper::TupleHelper;
use crate::error::{Error, SchemaError, TypeMismatch};

verus! {

/// Whether `r` and `d` are a result and a following state that
/// `decode_enum_helper` may give from the state `d0`: each step's outcome is
/// one its decoder allows, and the first failure is what comes out.
pub open spec fn enum_helper_outcome<D: SpecDecoder>(
    d0: D,
    any: D::AnyDecoder,
    name: &'static str,
    variants: &'static [&'static str],
    r: Result<(usize, D::VariantDecoder), Error>,
    d: D,
) -> bool {
    let hint = DecodeHint::Enum { name, variants };
    exists|v: Result<SimpleDecoderView<D>, Error>, d1: D|
        #[trigger] d0.decode_state(any, hint, v, d1) && d0.decode_spec(any, hint, v) && match v {
            Err(e) => r == Err::<(usize, D::VariantDecoder), Error>(e) && d == d1,
            Ok(SimpleDecoderView::Enum(e)) => exists|d2: D|
                #[trigger] d1.enum_discriminant_state(e, d2) && match d1.enum_discriminant_spec(e) {
                    Err(err) => r == Err::<(usize, D::VariantDecoder), Error>(err) && d == d2,
                    Ok((disc, variant)) => exists|w: Result<SimpleDecoderView<D>, Error>, d3: D|
                        #[trigger] d2.decode_state(disc, DecodeHint::Identifier, w, d3)
                            && d2.decode_spec(disc, DecodeHint::Identifier, w) && d == d3 && match w {
                            Err(err) => r == Err::<(usize, D::VariantDecoder), Error>(err),
                            Ok(id) => match spec_identifier(id, variants@) {
                                Err(err) => r == Err::<(usize, D::VariantDecoder), Error>(err),
                                Ok(None) => r == Err::<(usize, D::VariantDecoder), Error>(
                                    Error::Schema(SchemaError::UnknownVariant),
                                ),
                                Ok(Some(n)) => r == Ok::<(usize, D::VariantDecoder), Error>((n, variant)),
                            },
                        },
                },
            Ok(other) => r == Err::<(usize, D::VariantDecoder), Error>(
                Error::TypeMismatch(TypeMismatch { found: view_kind(other), expected: "enum" }),
            ) && d == d1,
        }
}

/// Decodes `any` as an enum named `name` with the given variants, and reads
/// its discriminant as an identifier among the variants (an index, or a
/// name).  Gives the variant's index and the handle of its payload; a name
/// that is not among the variants is `UnknownVariant`.
pub fn decode_enum_helper<D: SpecDecoder>(
    decoder: &mut D,
    any: D::AnyDecoder,
    name: &'static str,
    variants: &'static [&'static str],
) -> (r: Result<(usize, D::VariantDecoder), Error>)
    ensures
        enum_helper_outcome(*old(decoder), any, name, variants, r, *final(decoder)),
{
    let ghost d0 = *decoder;
    let hint = DecodeHint::Enum { name, variants };
    let view = decoder.decode(any, hint);
    let ghost d1 = *decoder;
    let ghost v = view;
    assert(d0.decode_state(any, hint, v, d1));
    let view = match view {
        Ok(view) => view,
        Err(e) => return Err(e),
    };
    let e = match view.try_into_enum() {
        Ok(e) => e,
        Err(err) => return Err(err),
    };
    let step = decoder.decode_enum_discriminant(e);
    let ghost d2 = *decoder;
    assert(d1.enum_discriminant_state(e, d2));
    let (disc, variant) = match step {
        Ok(x) => x,
        Err(err) => return Err(err),
    };
    let id = decoder.decode(disc, DecodeHint::Identifier);
    let ghost d3 = *decoder;
    let ghost w = id;
    assert(d2.decode_state(disc, DecodeHint::Identifier, w, d3));
    let id = match id {
        Ok(id) => id,
        Err(err) => return Err(err),
    };
    match id.try_into_identifier(variants) {
        Ok(Some(n)) => Ok((n, variant)),
        Ok(None) => Err(Error::Schema(SchemaError::UnknownVariant)),
        Err(err) => Err(err),
    }
}

/// Decodes the payload of a tuple variant of `len` items: the decoder must
/// find a sequence, which is handed to a `TupleHelper`; the enum's closer
/// comes with it.
pub fn decode_tuple_variant_helper<D: SpecDecoder>(
    decoder: &mut D,
    variant: D::VariantDecoder,
    len: usize,
) -> (r: Result<(TupleHelper<D>, D::EnumCloser), Error>)
    ensures
        exists|v: Result<(SimpleDecoderView<D>, D::EnumCloser), Error>|
            #[trigger] old(decoder).enum_variant_state(variant, DecodeVariantHint::TupleVariant { len }, v, *final(decoder))
                && old(decoder).enum_variant_spec(variant, DecodeVariantHint::TupleVariant { len }, v) && match v {
                Err(e) => r is Err && r->Err_0 == e,
                Ok((SimpleDecoderView::Sequence(s), c)) => r matches Ok((t, c2)) && t.is_open() && t.seq() == s && c2 == c,
                Ok((other, c)) => r is Err && r->Err_0 == Error::TypeMismatch(
                    TypeMismatch { found: view_kind(other), expected: "seq" },
                ),
            },
{
    let ghost d0 = *decoder;
    let step = decoder.decode_enum_variant(variant, DecodeVariantHint::TupleVariant { len });
    let ghost v = step;
    assert(d0.enum_variant_state(variant, DecodeVariantHint::TupleVariant { len }, v, *decoder));
    let (view, closer) = match step {
        Ok(x) => x,
        Err(e) => return Err(e),
    };
    let seq = match view.try_into_seq() {
        Ok(seq) => seq,
        Err(e) => return Err(e),
    };
    Ok((TupleHelper::new(seq), closer))
}

} // verus!
