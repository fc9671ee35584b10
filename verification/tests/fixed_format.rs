use marshal_formats::decode::{DecodeHint, DecodeVariantHint, SimpleDecoderView, SpecDecoder};
use marshal_formats::encode::SpecEncoder;
use marshal_formats::error::{Error, FixedError};
use marshal_formats::fixed::DiscriminantWidth;
use marshal_formats::fixed::decode::SimpleFixedSpecDecoder;
use marshal_formats::fixed::encode::SimpleFixedSpecEncoder;
use marshal_formats::fixed::full::{FixedDecoderBuilder, FixedEncoderBuilder};
use marshal_formats::primitive::{Primitive, PrimitiveType};
use marshal_formats::vu128::VU128_PADDING;

fn prim<D: SpecDecoder>(d: &mut D, any: D::AnyDecoder, t: PrimitiveType) -> Primitive {
    match d.decode(any, DecodeHint::Primitive(t)).unwrap() {
        SimpleDecoderView::Primitive(p) => p,
        _ => panic!("expected a primitive"),
    }
}

fn check_body(found: &[u8], expected: &[u8]) {
    assert!(found[found.len() - VU128_PADDING..].iter().all(|b| *b == 0));
    if !expected.is_empty() {
        assert_eq!(expected, &found[..found.len() - VU128_PADDING]);
    }
}

/// Encodes with `enc`, checks the bytes, decodes with `dec` and checks that
/// the whole input was used.
fn round_trip<F, G>(enc: F, dec: G, expected: &[u8])
where
    F: FnOnce(&mut marshal_formats::encode::poison::PoisonEncoder<SimpleFixedSpecEncoder>, marshal_formats::encode::poison::PoisonWrapper<()>),
    G: FnOnce(
        &mut marshal_formats::decode::poison::PoisonDecoder<
            marshal_formats::decode::depth_budget::DepthBudgetDecoder<SimpleFixedSpecDecoder<'_>>,
        >,
        marshal_formats::decode::poison::PoisonWrapper<
            marshal_formats::decode::depth_budget::WithDepthBudget<marshal_formats::fixed::decode::FixedAnyDecoder>,
        >,
    ),
{
    let mut w = FixedEncoderBuilder::new();
    let any = w.build();
    enc(w.encoder_mut(), any);
    let found = w.end().unwrap();
    check_body(&found, expected);
    let mut p = FixedDecoderBuilder::new(&found);
    let any = p.build();
    dec(p.decoder_mut(), any);
    p.end().unwrap();
}

fn rt_prim(v: Primitive, t: PrimitiveType, expected: &[u8]) {
    round_trip(
        |e, any| e.encode_prim(any, v).unwrap(),
        |d, any| assert_eq!(prim(d, any, t), v),
        expected,
    );
}

const STRUCT2: &[&str] = &["x", "y"];
const ENUM1: &[&str] = &["A", "B", "C"];
const C_FIELDS: &[&str] = &["x", "y", "z"];

#[test]
fn test_rt() {
    rt_prim(Primitive::U8(u8::MAX), PrimitiveType::U8, &[]);
    rt_prim(Primitive::U16(u16::MAX), PrimitiveType::U16, &[]);
    rt_prim(Primitive::U32(u32::MAX), PrimitiveType::U32, &[]);
    rt_prim(Primitive::U64(u64::MAX), PrimitiveType::U64, &[]);
    rt_prim(Primitive::U128(u128::MAX), PrimitiveType::U128, &[]);
    // An empty struct and structs of one and two fields: the fields in order.
    round_trip(
        |e, any| {
            let s = e.encode_struct(any, "Struct0", &[]).unwrap();
            e.struct_end(s).unwrap();
        },
        |d, any| {
            let mut s = d.decode(any, DecodeHint::Struct { name: "Struct0", fields: &[] }).unwrap().try_into_seq().unwrap();
            assert!(d.decode_seq_next(&mut s).unwrap().is_none());
            d.decode_seq_end(s).unwrap();
        },
        &[],
    );
    round_trip(
        |e, any| {
            let mut s = e.encode_struct(any, "Struct1", &["x"]).unwrap();
            let f = e.struct_encode_field(&mut s, "x").unwrap();
            e.encode_prim(f, Primitive::U32(123)).unwrap();
            e.struct_end(s).unwrap();
        },
        |d, any| {
            let mut s = d.decode(any, DecodeHint::Struct { name: "Struct1", fields: &["x"] }).unwrap().try_into_seq().unwrap();
            let f = d.decode_seq_next(&mut s).unwrap().unwrap();
            assert_eq!(prim(d, f, PrimitiveType::U32), Primitive::U32(123));
            assert!(d.decode_seq_next(&mut s).unwrap().is_none());
            d.decode_seq_end(s).unwrap();
        },
        &[123],
    );
    round_trip(
        |e, any| {
            let mut s = e.encode_struct(any, "Struct2", STRUCT2).unwrap();
            let f = e.struct_encode_field(&mut s, "x").unwrap();
            e.encode_prim(f, Primitive::U32(123)).unwrap();
            let f = e.struct_encode_field(&mut s, "y").unwrap();
            e.encode_prim(f, Primitive::U32(23)).unwrap();
            e.struct_end(s).unwrap();
        },
        |d, any| {
            let mut s = d.decode(any, DecodeHint::Struct { name: "Struct2", fields: STRUCT2 }).unwrap().try_into_seq().unwrap();
            let f = d.decode_seq_next(&mut s).unwrap().unwrap();
            assert_eq!(prim(d, f, PrimitiveType::U32), Primitive::U32(123));
            let f = d.decode_seq_next(&mut s).unwrap().unwrap();
            assert_eq!(prim(d, f, PrimitiveType::U32), Primitive::U32(23));
            d.decode_seq_end(s).unwrap();
        },
        &[123, 23],
    );
    // Nested options around an empty option.
    for (depth, expected) in [(0usize, vec![0u8]), (1, vec![1, 0]), (2, vec![1, 1, 0]), (3, vec![1, 1, 1, 0])] {
        round_trip(
            |e, any| {
                let mut any = any;
                let mut closers = vec![];
                for _ in 0..depth {
                    let (inner, closer) = e.encode_some(any).unwrap();
                    any = inner;
                    closers.push(closer);
                }
                e.encode_none(any).unwrap();
                while let Some(c) = closers.pop() {
                    e.some_end(c).unwrap();
                }
            },
            |d, any| {
                let mut any = any;
                let mut closers = vec![];
                for _ in 0..depth {
                    let some = d.decode(any, DecodeHint::Option).unwrap().try_into_option().unwrap().unwrap();
                    let (inner, closer) = d.decode_some_inner(some).unwrap();
                    any = inner;
                    closers.push(closer);
                }
                assert!(d.decode(any, DecodeHint::Option).unwrap().try_into_option().unwrap().is_none());
                while let Some(c) = closers.pop() {
                    d.decode_some_end(c).unwrap();
                }
            },
            &expected,
        );
    }
    // A sequence of enum values: the variant index, then the payload.  The
    // unit variant is written as a variant without fields, so that its index
    // is written.
    round_trip(
        |e, any| {
            let mut s = e.encode_seq(any, Some(3)).unwrap();
            let a = e.seq_encode_element(&mut s).unwrap();
            let t = e.encode_tuple_variant(a, "Enum1", ENUM1, 0, 0).unwrap();
            e.tuple_variant_end(t).unwrap();
            let a = e.seq_encode_element(&mut s).unwrap();
            let mut t = e.encode_tuple_variant(a, "Enum1", ENUM1, 1, 2).unwrap();
            let f = e.tuple_variant_encode_field(&mut t).unwrap();
            e.encode_prim(f, Primitive::U8(1)).unwrap();
            let f = e.tuple_variant_encode_field(&mut t).unwrap();
            e.encode_prim(f, Primitive::U16(2)).unwrap();
            e.tuple_variant_end(t).unwrap();
            let a = e.seq_encode_element(&mut s).unwrap();
            let mut v = e.encode_struct_variant(a, "Enum1", ENUM1, 2, C_FIELDS).unwrap();
            for (name, x) in [("x", 3u32), ("y", 4), ("z", 5)] {
                let f = e.struct_variant_encode_field(&mut v, name).unwrap();
                e.encode_prim(f, Primitive::U32(x)).unwrap();
            }
            e.struct_variant_end(v).unwrap();
            e.seq_end(s).unwrap();
        },
        |d, any| {
            let mut s = d.decode(any, DecodeHint::Sequence).unwrap().try_into_seq().unwrap();
            let mut indexes = vec![];
            let mut values = vec![];
            while let Some(a) = d.decode_seq_next(&mut s).unwrap() {
                let disc = d.decode(a, DecodeHint::Enum { name: "Enum1", variants: ENUM1 }).unwrap().try_into_enum().unwrap();
                let (k, variant) = d.decode_enum_discriminant(disc).unwrap();
                let index = match prim(d, k, PrimitiveType::U32) {
                    Primitive::U32(i) => i,
                    _ => panic!("expected an index"),
                };
                indexes.push(index);
                let hint = match index {
                    0 => DecodeVariantHint::UnitVariant,
                    1 => DecodeVariantHint::TupleVariant { len: 2 },
                    _ => DecodeVariantHint::StructVariant { fields: C_FIELDS },
                };
                let (view, closer) = d.decode_enum_variant(variant, hint).unwrap();
                match index {
                    0 => assert!(matches!(view, SimpleDecoderView::Primitive(Primitive::Unit))),
                    1 => {
                        let mut f = view.try_into_seq().unwrap();
                        for t in [PrimitiveType::U8, PrimitiveType::U16] {
                            let x = d.decode_seq_next(&mut f).unwrap().unwrap();
                            values.push(prim(d, x, t));
                        }
                        assert!(d.decode_seq_next(&mut f).unwrap().is_none());
                        d.decode_seq_end(f).unwrap();
                    },
                    _ => {
                        let mut f = view.try_into_seq().unwrap();
                        while let Some(x) = d.decode_seq_next(&mut f).unwrap() {
                            values.push(prim(d, x, PrimitiveType::U32));
                        }
                        d.decode_seq_end(f).unwrap();
                    },
                }
                d.decode_enum_end(closer).unwrap();
            }
            d.decode_seq_end(s).unwrap();
            assert_eq!(indexes, vec![0, 1, 2]);
            assert_eq!(
                values,
                vec![Primitive::U8(1), Primitive::U16(2), Primitive::U32(3), Primitive::U32(4), Primitive::U32(5)]
            );
        },
        &[3, 0, 1, 1, 2, 2, 3, 4, 5],
    );
    round_trip(
        |e, any| e.encode_str(any, "\u{0000}").unwrap(),
        |d, any| {
            let s = d.decode(any, DecodeHint::String).unwrap().try_into_string().unwrap();
            assert_eq!(s, "\u{0000}".to_string());
        },
        &[1, 0],
    );
    for n in 1usize..=4 {
        let mut expected = vec![n as u8];
        expected.extend(std::iter::repeat(0u8).take(n));
        round_trip(
            |e, any| {
                let mut s = e.encode_seq(any, Some(n)).unwrap();
                for _ in 0..n {
                    let a = e.seq_encode_element(&mut s).unwrap();
                    e.encode_prim(a, Primitive::U8(0)).unwrap();
                }
                e.seq_end(s).unwrap();
            },
            |d, any| {
                let mut s = d.decode(any, DecodeHint::Sequence).unwrap().try_into_seq().unwrap();
                let mut count = 0;
                while let Some(a) = d.decode_seq_next(&mut s).unwrap() {
                    assert_eq!(prim(d, a, PrimitiveType::U8), Primitive::U8(0));
                    count += 1;
                }
                d.decode_seq_end(s).unwrap();
                assert_eq!(count, n);
            },
            &expected,
        );
    }
    // A struct whose one field is named "type".
    round_trip(
        |e, any| {
            let mut s = e.encode_struct(any, "Renamed", &["type"]).unwrap();
            let f = e.struct_encode_field(&mut s, "type").unwrap();
            e.encode_prim(f, Primitive::U8(1)).unwrap();
            e.struct_end(s).unwrap();
        },
        |d, any| {
            let mut s = d.decode(any, DecodeHint::Struct { name: "Renamed", fields: &["type"] }).unwrap().try_into_seq().unwrap();
            let f = d.decode_seq_next(&mut s).unwrap().unwrap();
            assert_eq!(prim(d, f, PrimitiveType::U8), Primitive::U8(1));
            d.decode_seq_end(s).unwrap();
        },
        &[1],
    );
    // `Ok(1u8)` of a `Result<u8, u16>`: variant 0 with one field.
    round_trip(
        |e, any| {
            let mut t = e.encode_tuple_variant(any, "Result", &["Ok", "Err"], 0, 1).unwrap();
            let f = e.tuple_variant_encode_field(&mut t).unwrap();
            e.encode_prim(f, Primitive::U8(1)).unwrap();
            e.tuple_variant_end(t).unwrap();
        },
        |d, any| {
            let disc = d.decode(any, DecodeHint::Enum { name: "Result", variants: &["Ok", "Err"] }).unwrap().try_into_enum().unwrap();
            let (k, variant) = d.decode_enum_discriminant(disc).unwrap();
            assert_eq!(prim(d, k, PrimitiveType::U8), Primitive::U8(0));
            let (view, closer) = d.decode_enum_variant(variant, DecodeVariantHint::TupleVariant { len: 1 }).unwrap();
            let mut f = view.try_into_seq().unwrap();
            let x = d.decode_seq_next(&mut f).unwrap().unwrap();
            assert_eq!(prim(d, x, PrimitiveType::U8), Primitive::U8(1));
            d.decode_seq_end(f).unwrap();
            d.decode_enum_end(closer).unwrap();
        },
        &[0, 1],
    );
    rt_prim(Primitive::Unit, PrimitiveType::Unit, &[]);
    // Tuples of one to five bytes.
    for n in 1u8..=5 {
        let expected: Vec<u8> = (0..n).collect();
        round_trip(
            |e, any| {
                let mut t = e.encode_tuple(any, n as usize).unwrap();
                for i in 0..n {
                    let a = e.tuple_encode_element(&mut t).unwrap();
                    e.encode_prim(a, Primitive::U8(i)).unwrap();
                }
                e.tuple_end(t).unwrap();
            },
            |d, any| {
                let mut s = d.decode(any, DecodeHint::Tuple { len: n as usize }).unwrap().try_into_seq().unwrap();
                for i in 0..n {
                    let a = d.decode_seq_next(&mut s).unwrap().unwrap();
                    assert_eq!(prim(d, a, PrimitiveType::U8), Primitive::U8(i));
                }
                assert!(d.decode_seq_next(&mut s).unwrap().is_none());
                d.decode_seq_end(s).unwrap();
            },
            &expected,
        );
    }
    rt_prim(Primitive::U64(1722628047), PrimitiveType::U64, &[]);
    rt_prim(Primitive::U32(352217000), PrimitiveType::U32, &[]);
}

#[test]
fn discriminant_widths() {
    assert_eq!(DiscriminantWidth::from_max(0), DiscriminantWidth::U8);
    assert_eq!(DiscriminantWidth::from_max(0x100), DiscriminantWidth::U8);
    assert_eq!(DiscriminantWidth::from_max(0x101), DiscriminantWidth::U16);
    assert_eq!(DiscriminantWidth::from_max(0x1_0000), DiscriminantWidth::U16);
    assert_eq!(DiscriminantWidth::from_max(0x1_0001), DiscriminantWidth::U32);
    assert_eq!(DiscriminantWidth::from_max(0x1_0000_0000), DiscriminantWidth::U32);
    assert_eq!(DiscriminantWidth::from_max(0x1_0000_0001), DiscriminantWidth::U64);
}

#[test]
fn discriminant_round_trip() {
    for (index, max) in [(0usize, 1usize), (255, 256), (300, 0x1_0000), (70000, 0x1_0000_0000), (5, 0x1_0000_0001)] {
        let mut e = SimpleFixedSpecEncoder::new();
        e.encode_discriminant(index, max);
        let found = e.end().unwrap();
        let mut d = SimpleFixedSpecDecoder::new(&found);
        // Read back through a decoder with the same number of variants.
        let names: &'static [&'static str] = Box::leak(vec!["v"; max.min(300)].into_boxed_slice());
        if max <= 300 {
            let v = d.decode(marshal_formats::fixed::decode::FixedAnyDecoder::Any, DecodeHint::Enum { name: "E", variants: names }).unwrap();
            let disc = v.try_into_enum().unwrap();
            let (k, _) = d.decode_enum_discriminant(disc).unwrap();
            assert_eq!(
                d.decode(k, DecodeHint::Primitive(PrimitiveType::U64)).unwrap().try_into_identifier(&[]).unwrap(),
                Some(index)
            );
        }
    }
    // A discriminant that does not fit the requested kind.
    let mut d = SimpleFixedSpecDecoder::new(&[0u8; 17]);
    let r = d.decode(marshal_formats::fixed::decode::FixedAnyDecoder::Discriminant(300), DecodeHint::Primitive(PrimitiveType::U8));
    assert!(matches!(r, Err(Error::IntConversion)));
    let r = d.decode(marshal_formats::fixed::decode::FixedAnyDecoder::Discriminant(3), DecodeHint::Primitive(PrimitiveType::Bool));
    assert!(matches!(r, Err(Error::Fixed(FixedError::UnsupportedHint))));
}

#[test]
fn fixed_errors() {
    let mut d = SimpleFixedSpecDecoder::new(&[]);
    assert!(matches!(
        d.decode(marshal_formats::fixed::decode::FixedAnyDecoder::Any, DecodeHint::Any),
        Err(Error::Fixed(FixedError::UnsupportedHint))
    ));
    assert!(matches!(
        d.decode(marshal_formats::fixed::decode::FixedAnyDecoder::Any, DecodeHint::Primitive(PrimitiveType::U8)),
        Err(Error::Fixed(FixedError::UnexpectedEof))
    ));
    let mut d = SimpleFixedSpecDecoder::new(&[5, 1, 2]);
    assert!(matches!(
        d.decode(marshal_formats::fixed::decode::FixedAnyDecoder::Any, DecodeHint::Bytes),
        Err(Error::Fixed(FixedError::UnexpectedEof))
    ));
    let mut e = SimpleFixedSpecEncoder::new();
    assert!(matches!(e.encode_seq((), None), Err(Error::Fixed(FixedError::MissingSeqLength))));
    assert!(matches!(e.encode_map((), None), Err(Error::Fixed(FixedError::MissingMapLength))));
    let d = SimpleFixedSpecDecoder::new(&[0u8; 18]);
    assert!(matches!(d.end(), Err(Error::Fixed(FixedError::TrailingData))));
    let d = SimpleFixedSpecDecoder::new(&[0, 3]);
    assert!(matches!(d.end(), Err(Error::Fixed(FixedError::NonZeroPadding))));
}

#[test]
fn decode_bytes_short_input_stops_after_the_length() {
    // Three bytes are announced but two are left: the length is read, the
    // bytes are not.
    let data = [3u8, 1, 9];
    let mut d = SimpleFixedSpecDecoder::new(&data);
    assert!(matches!(d.decode_bytes(), Err(Error::Fixed(FixedError::UnexpectedEof))));
    // The next read starts right after the length.
    assert_eq!(d.decode_bytes().unwrap(), vec![9]);
    // A length that cannot be read leaves the position where it was.
    let mut d = SimpleFixedSpecDecoder::new(&[]);
    assert!(matches!(d.decode_str(), Err(Error::Fixed(FixedError::UnexpectedEof))));
    assert!(matches!(d.decode_discriminant(3), Err(Error::Fixed(FixedError::UnexpectedEof))));
}
