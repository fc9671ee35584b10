use marshal_formats::bin_format::decode::{BinDecoderSchema, SimpleBinDecoder};
use marshal_formats::bin_format::encode::BinEncoderSchema;
use marshal_formats::bin_format::full::{BinDecoderBuilder, BinEncoderBuilder};
use marshal_formats::decode::enum_helper::{decode_enum_helper, decode_tuple_variant_helper};
use marshal_formats::decode::ignore::ignore;
use marshal_formats::decode::struct_helper::{StructDecoderHelper, field_index};
use marshal_formats::decode::{DecodeHint, DecodeVariantHint, SimpleDecoderView, SpecDecoder};
use marshal_formats::encode::SpecEncoder;
use marshal_formats::error::{BinDecoderError, BinEncoderError, Error, SchemaError};
use marshal_formats::primitive::{Primitive, PrimitiveType};
use marshal_formats::vu128::VU128_PADDING;

fn prim<D: SpecDecoder>(d: &mut D, any: D::AnyDecoder, t: PrimitiveType) -> Primitive {
    match d.decode(any, DecodeHint::Primitive(t)).unwrap() {
        SimpleDecoderView::Primitive(p) => p,
        _ => panic!("expected a primitive"),
    }
}

fn identifier<D: SpecDecoder>(d: &mut D, any: D::AnyDecoder, ids: &'static [&'static str]) -> usize {
    d.decode(any, DecodeHint::Identifier).unwrap().try_into_identifier(ids).unwrap().unwrap()
}

fn seq_of<D: SpecDecoder>(d: &mut D, any: D::AnyDecoder, hint: DecodeHint) -> D::SeqDecoder {
    d.decode(any, hint).unwrap().try_into_seq().unwrap()
}

fn body(found: &[u8]) -> &[u8] {
    assert!(found.len() >= VU128_PADDING);
    assert!(found[found.len() - VU128_PADDING..].iter().all(|b| *b == 0));
    &found[..found.len() - VU128_PADDING]
}

#[test]
fn test_unit() {
    let mut schema = BinEncoderSchema::new();
    let mut w = BinEncoderBuilder::new(&mut schema);
    let any = w.build();
    w.encoder_mut().encode_prim(any, Primitive::Unit).unwrap();
    let found = w.end().unwrap();
    assert_eq!(body(&found), &[0]);
    let mut dschema = BinDecoderSchema::new();
    let mut p = BinDecoderBuilder::new(&found, &mut dschema);
    let any = p.build();
    assert_eq!(prim(p.decoder_mut(), any, PrimitiveType::Unit), Primitive::Unit);
    p.end().unwrap();
}

#[test]
fn test_int() {
    let mut schema = BinEncoderSchema::new();
    let mut w = BinEncoderBuilder::new(&mut schema);
    let any = w.build();
    w.encoder_mut().encode_prim(any, Primitive::U8(123)).unwrap();
    let found = w.end().unwrap();
    assert_eq!(body(&found), &[7, 123]);
    let mut dschema = BinDecoderSchema::new();
    let mut p = BinDecoderBuilder::new(&found, &mut dschema);
    let any = p.build();
    assert_eq!(prim(p.decoder_mut(), any, PrimitiveType::U8), Primitive::U8(123));
    p.end().unwrap();
}

#[test]
fn test_tuple() {
    let mut schema = BinEncoderSchema::new();
    let mut w = BinEncoderBuilder::new(&mut schema);
    let any = w.build();
    {
        let e = w.encoder_mut();
        let mut t = e.encode_tuple(any, 2).unwrap();
        let a = e.tuple_encode_element(&mut t).unwrap();
        e.encode_prim(a, Primitive::U8(123)).unwrap();
        let a = e.tuple_encode_element(&mut t).unwrap();
        e.encode_prim(a, Primitive::U16(124)).unwrap();
        e.tuple_end(t).unwrap();
    }
    let found = w.end().unwrap();
    assert_eq!(body(&found), &[15, 2, 7, 123, 8, 124]);
    let mut dschema = BinDecoderSchema::new();
    let mut p = BinDecoderBuilder::new(&found, &mut dschema);
    let any = p.build();
    {
        let d = p.decoder_mut();
        let mut s = seq_of(d, any, DecodeHint::Tuple { len: 2 });
        let a = d.decode_seq_next(&mut s).unwrap().unwrap();
        assert_eq!(prim(d, a, PrimitiveType::U8), Primitive::U8(123));
        let a = d.decode_seq_next(&mut s).unwrap().unwrap();
        assert_eq!(prim(d, a, PrimitiveType::U16), Primitive::U16(124));
        assert!(d.decode_seq_next(&mut s).unwrap().is_none());
        d.decode_seq_end(s).unwrap();
    }
    p.end().unwrap();
}

#[test]
fn test_vec() {
    let mut schema = BinEncoderSchema::new();
    let mut w = BinEncoderBuilder::new(&mut schema);
    let any = w.build();
    {
        let e = w.encoder_mut();
        let mut s = e.encode_seq(any, Some(3)).unwrap();
        for x in [1i32, 2, 3] {
            let a = e.seq_encode_element(&mut s).unwrap();
            let (inner, closer) = e.encode_some(a).unwrap();
            e.encode_prim(inner, Primitive::I32(x)).unwrap();
            e.some_end(closer).unwrap();
        }
        e.seq_end(s).unwrap();
    }
    let found = w.end().unwrap();
    assert_eq!(body(&found), &[19, 3, 26, 4, 2, 26, 4, 4, 26, 4, 6]);
    let mut dschema = BinDecoderSchema::new();
    let mut p = BinDecoderBuilder::new(&found, &mut dschema);
    let any = p.build();
    {
        let d = p.decoder_mut();
        let mut s = seq_of(d, any, DecodeHint::Sequence);
        let mut got = vec![];
        while let Some(a) = d.decode_seq_next(&mut s).unwrap() {
            let some = d.decode(a, DecodeHint::Option).unwrap().try_into_option().unwrap().unwrap();
            let (inner, closer) = d.decode_some_inner(some).unwrap();
            got.push(prim(d, inner, PrimitiveType::I32));
            d.decode_some_end(closer).unwrap();
        }
        d.decode_seq_end(s).unwrap();
        assert_eq!(got, vec![Primitive::I32(1), Primitive::I32(2), Primitive::I32(3)]);
    }
    p.end().unwrap();
}

#[test]
fn test_string() {
    let mut schema = BinEncoderSchema::new();
    let mut w = BinEncoderBuilder::new(&mut schema);
    let any = w.build();
    w.encoder_mut().encode_str(any, "abc").unwrap();
    let found = w.end().unwrap();
    assert_eq!(body(&found), &[22, 3, b'a', b'b', b'c']);
    let mut dschema = BinDecoderSchema::new();
    let mut p = BinDecoderBuilder::new(&found, &mut dschema);
    let any = p.build();
    let s = p.decoder_mut().decode(any, DecodeHint::String).unwrap().try_into_string().unwrap();
    assert_eq!(s, "abc".to_string());
    p.end().unwrap();
}

const FOO_FIELDS: &[&str] = &["abc", "xyz"];

fn encode_foo<E: SpecEncoder>(e: &mut E, any: E::AnySpecEncoder, abc: u8, xyz: u32) {
    let mut s = e.encode_struct(any, "Foo", FOO_FIELDS).unwrap();
    let a = e.struct_encode_field(&mut s, "abc").unwrap();
    e.encode_prim(a, Primitive::U8(abc)).unwrap();
    let a = e.struct_encode_field(&mut s, "xyz").unwrap();
    e.encode_prim(a, Primitive::U32(xyz)).unwrap();
    e.struct_end(s).unwrap();
}

/// Decodes a struct whose fields are `fields` (in the target's order) and
/// whose field `i` has kind `kinds[i]`; the result is indexed by the target's
/// field order.
fn decode_struct<D: SpecDecoder>(
    d: &mut D,
    any: D::AnyDecoder,
    name: &'static str,
    fields: &'static [&'static str],
    kinds: &[PrimitiveType],
) -> Vec<Option<Primitive>> {
    let mut out = vec![None; fields.len()];
    let mut map = d.decode(any, DecodeHint::Struct { name, fields }).unwrap().try_into_map().unwrap();
    while let Some(key) = d.decode_map_next(&mut map).unwrap() {
        let (k, v) = d.decode_entry_key(key).unwrap();
        let i = identifier(d, k, fields);
        let v = d.decode_entry_value(v).unwrap();
        out[i] = Some(prim(d, v, kinds[i]));
    }
    d.decode_map_end(map).unwrap();
    out
}

#[test]
fn test_struct() {
    let mut schema = BinEncoderSchema::new();
    let mut w = BinEncoderBuilder::new(&mut schema);
    let any = w.build();
    encode_foo(w.encoder_mut(), any, 123, 124);
    let found = w.end().unwrap();
    assert_eq!(
        body(&found),
        &[21, 2, 3, b'a', b'b', b'c', 3, b'x', b'y', b'z', 16, 0, 7, 123, 9, 124]
    );
    let mut dschema = BinDecoderSchema::new();
    let mut p = BinDecoderBuilder::new(&found, &mut dschema);
    let any = p.build();
    let got = decode_struct(p.decoder_mut(), any, "Foo", FOO_FIELDS, &[PrimitiveType::U8, PrimitiveType::U32]);
    assert_eq!(got, vec![Some(Primitive::U8(123)), Some(Primitive::U32(124))]);
    p.end().unwrap();

    let mut schema = BinEncoderSchema::new();
    let mut w = BinEncoderBuilder::new(&mut schema);
    let any = w.build();
    {
        let e = w.encoder_mut();
        let mut s = e.encode_seq(any, Some(2)).unwrap();
        let a = e.seq_encode_element(&mut s).unwrap();
        encode_foo(e, a, 123, 124);
        let a = e.seq_encode_element(&mut s).unwrap();
        encode_foo(e, a, 125, 126);
        e.seq_end(s).unwrap();
    }
    let found = w.end().unwrap();
    assert_eq!(
        body(&found),
        &[
            19, 2, //
            21, 2, 3, b'a', b'b', b'c', 3, b'x', b'y', b'z', //
            16, 0, 7, 123, 9, 124, //
            16, 0, 7, 125, 9, 126,
        ]
    );
    let mut dschema = BinDecoderSchema::new();
    let mut p = BinDecoderBuilder::new(&found, &mut dschema);
    let any = p.build();
    {
        let d = p.decoder_mut();
        let mut s = seq_of(d, any, DecodeHint::Sequence);
        let a = d.decode_seq_next(&mut s).unwrap().unwrap();
        let got = decode_struct(d, a, "Foo", FOO_FIELDS, &[PrimitiveType::U8, PrimitiveType::U32]);
        assert_eq!(got, vec![Some(Primitive::U8(123)), Some(Primitive::U32(124))]);
        let a = d.decode_seq_next(&mut s).unwrap().unwrap();
        let got = decode_struct(d, a, "Foo", FOO_FIELDS, &[PrimitiveType::U8, PrimitiveType::U32]);
        assert_eq!(got, vec![Some(Primitive::U8(125)), Some(Primitive::U32(126))]);
        assert!(d.decode_seq_next(&mut s).unwrap().is_none());
        d.decode_seq_end(s).unwrap();
    }
    p.end().unwrap();

    // Field order: a struct written with fields (x1, x2) is read by a type
    // whose fields are (x2, x1).
    const ORDER_ONE: &[&str] = &["x1", "x2"];
    const ORDER_TWO: &[&str] = &["x2", "x1"];
    let mut schema = BinEncoderSchema::new();
    let mut w = BinEncoderBuilder::new(&mut schema);
    let any = w.build();
    {
        let e = w.encoder_mut();
        let mut t = e.encode_tuple(any, 2).unwrap();
        for (x1, x2) in [(51u32, 52u64), (53, 54)] {
            let a = e.tuple_encode_element(&mut t).unwrap();
            let mut s = e.encode_struct(a, "OrderOne", ORDER_ONE).unwrap();
            let f = e.struct_encode_field(&mut s, "x1").unwrap();
            e.encode_prim(f, Primitive::U32(x1)).unwrap();
            let f = e.struct_encode_field(&mut s, "x2").unwrap();
            e.encode_prim(f, Primitive::U64(x2)).unwrap();
            e.struct_end(s).unwrap();
        }
        e.tuple_end(t).unwrap();
    }
    let found = w.end().unwrap();
    assert_eq!(
        body(&found),
        &[
            15, 2, //
            21, 2, 2, b'x', b'1', 2, b'x', b'2', //
            16, 0, 9, 51, 10, 52, //
            16, 0, 9, 53, 10, 54, //
        ]
    );
    let mut dschema = BinDecoderSchema::new();
    let mut p = BinDecoderBuilder::new(&found, &mut dschema);
    let any = p.build();
    {
        let d = p.decoder_mut();
        let mut s = seq_of(d, any, DecodeHint::Tuple { len: 2 });
        let a = d.decode_seq_next(&mut s).unwrap().unwrap();
        let got = decode_struct(d, a, "OrderOne", ORDER_ONE, &[PrimitiveType::U32, PrimitiveType::U64]);
        assert_eq!(got, vec![Some(Primitive::U32(51)), Some(Primitive::U64(52))]);
        let a = d.decode_seq_next(&mut s).unwrap().unwrap();
        let got = decode_struct(d, a, "OrderTwo", ORDER_TWO, &[PrimitiveType::U64, PrimitiveType::U32]);
        assert_eq!(got, vec![Some(Primitive::U64(54)), Some(Primitive::U32(53))]);
        d.decode_seq_end(s).unwrap();
    }
    p.end().unwrap();

    // Two struct types with the same field names share one definition.
    const ORDER_THREE: &[&str] = &["x1", "x2"];
    let mut schema = BinEncoderSchema::new();
    let mut w = BinEncoderBuilder::new(&mut schema);
    let any = w.build();
    {
        let e = w.encoder_mut();
        let mut t = e.encode_tuple(any, 2).unwrap();
        for (name, fields, x1, x2) in [("OrderOne", ORDER_ONE, 51u32, 52u64), ("OrderThree", ORDER_THREE, 53, 54)] {
            let a = e.tuple_encode_element(&mut t).unwrap();
            let mut s = e.encode_struct(a, name, fields).unwrap();
            let f = e.struct_encode_field(&mut s, "x1").unwrap();
            e.encode_prim(f, Primitive::U32(x1)).unwrap();
            let f = e.struct_encode_field(&mut s, "x2").unwrap();
            e.encode_prim(f, Primitive::U64(x2)).unwrap();
            e.struct_end(s).unwrap();
        }
        e.tuple_end(t).unwrap();
    }
    let found = w.end().unwrap();
    assert_eq!(
        body(&found),
        &[
            15, 2, //
            21, 2, 2, b'x', b'1', 2, b'x', b'2', //
            16, 0, 9, 51, 10, 52, //
            16, 0, 9, 53, 10, 54, //
        ]
    );
    let mut dschema = BinDecoderSchema::new();
    let mut p = BinDecoderBuilder::new(&found, &mut dschema);
    let any = p.build();
    {
        let d = p.decoder_mut();
        let mut s = seq_of(d, any, DecodeHint::Tuple { len: 2 });
        for (x1, x2) in [(51u32, 52u64), (53, 54)] {
            let a = d.decode_seq_next(&mut s).unwrap().unwrap();
            let got = decode_struct(d, a, "OrderOne", ORDER_ONE, &[PrimitiveType::U32, PrimitiveType::U64]);
            assert_eq!(got, vec![Some(Primitive::U32(x1)), Some(Primitive::U64(x2))]);
        }
        d.decode_seq_end(s).unwrap();
    }
    p.end().unwrap();
}

#[test]
fn test_unit_struct() {
    let mut schema = BinEncoderSchema::new();
    let mut w = BinEncoderBuilder::new(&mut schema);
    let any = w.build();
    w.encoder_mut().encode_unit_struct(any, "Foo").unwrap();
    let found = w.end().unwrap();
    assert_eq!(body(&found), &[23]);
    let mut dschema = BinDecoderSchema::new();
    let mut p = BinDecoderBuilder::new(&found, &mut dschema);
    let any = p.build();
    match p.decoder_mut().decode(any, DecodeHint::UnitStruct { name: "Foo" }).unwrap() {
        SimpleDecoderView::Primitive(Primitive::Unit) => {},
        _ => panic!("expected a unit"),
    }
    p.end().unwrap();
}

#[test]
fn test_tuple_struct() {
    let mut schema = BinEncoderSchema::new();
    let mut w = BinEncoderBuilder::new(&mut schema);
    let any = w.build();
    {
        let e = w.encoder_mut();
        let mut t = e.encode_tuple_struct(any, "Foo", 3).unwrap();
        for x in [Primitive::U8(50), Primitive::U16(51), Primitive::U32(52)] {
            let a = e.tuple_struct_encode_field(&mut t).unwrap();
            e.encode_prim(a, x).unwrap();
        }
        e.tuple_struct_end(t).unwrap();
    }
    let found = w.end().unwrap();
    assert_eq!(body(&found), &[17, 3, 7, 50, 8, 51, 9, 52]);
    let mut dschema = BinDecoderSchema::new();
    let mut p = BinDecoderBuilder::new(&found, &mut dschema);
    let any = p.build();
    {
        let d = p.decoder_mut();
        let mut s = seq_of(d, any, DecodeHint::TupleStruct { name: "Foo", len: 3 });
        let mut got = vec![];
        for t in [PrimitiveType::U8, PrimitiveType::U16, PrimitiveType::U32] {
            let a = d.decode_seq_next(&mut s).unwrap().unwrap();
            got.push(prim(d, a, t));
        }
        assert!(d.decode_seq_next(&mut s).unwrap().is_none());
        d.decode_seq_end(s).unwrap();
        assert_eq!(got, vec![Primitive::U8(50), Primitive::U16(51), Primitive::U32(52)]);
    }
    p.end().unwrap();
}

const ALL_VARIANTS: &[&str] = &["U", "T", "V"];
const V_FIELDS: &[&str] = &["x", "y", "z"];

#[derive(Debug, PartialEq, Eq)]
enum AllVariants {
    U,
    T(u8, u16),
    V { x: u32, y: u64, z: u128 },
}

fn encode_all_variants<E: SpecEncoder>(e: &mut E, any: E::AnySpecEncoder, v: &AllVariants) {
    match v {
        AllVariants::U => e.encode_unit_variant(any, "AllVariants", ALL_VARIANTS, 0).unwrap(),
        AllVariants::T(a, b) => {
            let mut t = e.encode_tuple_variant(any, "AllVariants", ALL_VARIANTS, 1, 2).unwrap();
            let f = e.tuple_variant_encode_field(&mut t).unwrap();
            e.encode_prim(f, Primitive::U8(*a)).unwrap();
            let f = e.tuple_variant_encode_field(&mut t).unwrap();
            e.encode_prim(f, Primitive::U16(*b)).unwrap();
            e.tuple_variant_end(t).unwrap();
        },
        AllVariants::V { x, y, z } => {
            let mut s = e.encode_struct_variant(any, "AllVariants", ALL_VARIANTS, 2, V_FIELDS).unwrap();
            let f = e.struct_variant_encode_field(&mut s, "x").unwrap();
            e.encode_prim(f, Primitive::U32(*x)).unwrap();
            let f = e.struct_variant_encode_field(&mut s, "y").unwrap();
            e.encode_prim(f, Primitive::U64(*y)).unwrap();
            let f = e.struct_variant_encode_field(&mut s, "z").unwrap();
            e.encode_prim(f, Primitive::U128(*z)).unwrap();
            e.struct_variant_end(s).unwrap();
        },
    }
}

fn decode_all_variants<D: SpecDecoder>(d: &mut D, any: D::AnyDecoder) -> AllVariants {
    let disc = d
        .decode(any, DecodeHint::Enum { name: "AllVariants", variants: ALL_VARIANTS })
        .unwrap()
        .try_into_enum()
        .unwrap();
    let (k, variant) = d.decode_enum_discriminant(disc).unwrap();
    let index = identifier(d, k, ALL_VARIANTS);
    match index {
        0 => {
            let (v, closer) = d.decode_enum_variant(variant, DecodeVariantHint::UnitVariant).unwrap();
            match v {
                SimpleDecoderView::Primitive(Primitive::Unit) => {},
                _ => panic!("expected a unit"),
            }
            d.decode_enum_end(closer).unwrap();
            AllVariants::U
        },
        1 => {
            let (v, closer) = d.decode_enum_variant(variant, DecodeVariantHint::TupleVariant { len: 2 }).unwrap();
            let mut s = v.try_into_seq().unwrap();
            let a = d.decode_seq_next(&mut s).unwrap().unwrap();
            let a = match prim(d, a, PrimitiveType::U8) {
                Primitive::U8(x) => x,
                _ => panic!("expected a u8"),
            };
            let b = d.decode_seq_next(&mut s).unwrap().unwrap();
            let b = match prim(d, b, PrimitiveType::U16) {
                Primitive::U16(x) => x,
                _ => panic!("expected a u16"),
            };
            assert!(d.decode_seq_next(&mut s).unwrap().is_none());
            d.decode_seq_end(s).unwrap();
            d.decode_enum_end(closer).unwrap();
            AllVariants::T(a, b)
        },
        2 => {
            let (v, closer) =
                d.decode_enum_variant(variant, DecodeVariantHint::StructVariant { fields: V_FIELDS }).unwrap();
            let mut map = v.try_into_map().unwrap();
            let mut got = [None, None, None];
            while let Some(key) = d.decode_map_next(&mut map).unwrap() {
                let (k, v) = d.decode_entry_key(key).unwrap();
                let i = identifier(d, k, V_FIELDS);
                let v = d.decode_entry_value(v).unwrap();
                let t = [PrimitiveType::U32, PrimitiveType::U64, PrimitiveType::U128][i];
                got[i] = Some(prim(d, v, t));
            }
            d.decode_map_end(map).unwrap();
            d.decode_enum_end(closer).unwrap();
            match got {
                [Some(Primitive::U32(x)), Some(Primitive::U64(y)), Some(Primitive::U128(z))] => {
                    AllVariants::V { x, y, z }
                },
                _ => panic!("missing fields"),
            }
        },
        _ => panic!("unknown variant"),
    }
}

fn round_trip_variants(values: &[AllVariants], expected: &[u8], as_seq: bool) {
    let mut schema = BinEncoderSchema::new();
    let mut w = BinEncoderBuilder::new(&mut schema);
    let any = w.build();
    {
        let e = w.encoder_mut();
        if as_seq {
            let mut s = e.encode_seq(any, Some(values.len())).unwrap();
            for v in values {
                let a = e.seq_encode_element(&mut s).unwrap();
                encode_all_variants(e, a, v);
            }
            e.seq_end(s).unwrap();
        } else {
            encode_all_variants(e, any, &values[0]);
        }
    }
    let found = w.end().unwrap();
    assert_eq!(body(&found), expected);
    let mut dschema = BinDecoderSchema::new();
    let mut p = BinDecoderBuilder::new(&found, &mut dschema);
    let any = p.build();
    {
        let d = p.decoder_mut();
        if as_seq {
            let mut s = seq_of(d, any, DecodeHint::Sequence);
            let mut got = vec![];
            while let Some(a) = d.decode_seq_next(&mut s).unwrap() {
                got.push(decode_all_variants(d, a));
            }
            d.decode_seq_end(s).unwrap();
            assert_eq!(&got[..], values);
        } else {
            assert_eq!(decode_all_variants(d, any), values[0]);
        }
    }
    p.end().unwrap();
}

#[test]
fn test_enum_variants() {
    round_trip_variants(
        &[AllVariants::U],
        &[
            21, 3, 1, b'U', 1, b'T', 1, b'V', //
            18, 0, 0, 0, //
        ],
        false,
    );
    round_trip_variants(
        &[AllVariants::T(51, 52)],
        &[
            21, 3, 1, b'U', 1, b'T', 1, b'V', //
            18, 0, 1, 17, 2, 7, 51, 8, 52, //
        ],
        false,
    );
    round_trip_variants(
        &[AllVariants::V { x: 53, y: 54, z: 55 }],
        &[
            21, 3, 1, b'U', 1, b'T', 1, b'V', //
            21, 3, 1, b'x', 1, b'y', 1, b'z', //
            18, 0, 2, 16, 1, 9, 53, 10, 54, 11, 55, //
        ],
        false,
    );
    round_trip_variants(
        &[AllVariants::U, AllVariants::T(51, 52), AllVariants::V { x: 53, y: 54, z: 55 }],
        &[
            19, 3, //
            21, 3, 1, b'U', 1, b'T', 1, b'V', //
            18, 0, 0, 0, //
            18, 0, 1, 17, 2, 7, 51, 8, 52, //
            21, 3, 1, b'x', 1, b'y', 1, b'z', //
            18, 0, 2, 16, 1, 9, 53, 10, 54, 11, 55, //
        ],
        true,
    );
}

#[test]
fn test_enum_reorder() {
    const FOO1: &[&str] = &["A1", "A2"];
    const FOO2: &[&str] = &["A2", "A1"];
    for (index, expected, target_index) in [(0usize, [18u8, 0, 0, 0], 1usize), (1, [18, 0, 1, 0], 0)] {
        let mut schema = BinEncoderSchema::new();
        let mut w = BinEncoderBuilder::new(&mut schema);
        let any = w.build();
        w.encoder_mut().encode_unit_variant(any, "Foo1", FOO1, index).unwrap();
        let found = w.end().unwrap();
        let mut want = vec![21, 2, 2, b'A', b'1', 2, b'A', b'2'];
        want.extend_from_slice(&expected);
        assert_eq!(body(&found), &want[..]);
        let mut dschema = BinDecoderSchema::new();
        let mut p = BinDecoderBuilder::new(&found, &mut dschema);
        let any = p.build();
        {
            let d = p.decoder_mut();
            let disc = d
                .decode(any, DecodeHint::Enum { name: "Foo2", variants: FOO2 })
                .unwrap()
                .try_into_enum()
                .unwrap();
            let (k, variant) = d.decode_enum_discriminant(disc).unwrap();
            assert_eq!(identifier(d, k, FOO2), target_index);
            let (v, closer) = d.decode_enum_variant(variant, DecodeVariantHint::UnitVariant).unwrap();
            assert!(matches!(v, SimpleDecoderView::Primitive(Primitive::Unit)));
            d.decode_enum_end(closer).unwrap();
        }
        p.end().unwrap();
    }
}

#[test]
fn test_map() {
    let mut schema = BinEncoderSchema::new();
    let mut w = BinEncoderBuilder::new(&mut schema);
    let any = w.build();
    {
        let e = w.encoder_mut();
        let mut m = e.encode_map(any, Some(2)).unwrap();
        for (k, v) in [(51u8, 52u8), (53, 54)] {
            let (ka, value) = e.map_encode_element(&mut m).unwrap();
            e.encode_prim(ka, Primitive::U8(k)).unwrap();
            let (va, closer) = e.entry_encode_value(value).unwrap();
            e.encode_prim(va, Primitive::U8(v)).unwrap();
            e.entry_end(closer).unwrap();
        }
        e.map_end(m).unwrap();
    }
    let found = w.end().unwrap();
    assert_eq!(body(&found), &[20, 2, 7, 51, 7, 52, 7, 53, 7, 54]);
    let mut dschema = BinDecoderSchema::new();
    let mut p = BinDecoderBuilder::new(&found, &mut dschema);
    let any = p.build();
    {
        let d = p.decoder_mut();
        let mut map = d.decode(any, DecodeHint::Mapping).unwrap().try_into_map().unwrap();
        let mut got = vec![];
        while let Some(key) = d.decode_map_next(&mut map).unwrap() {
            let (k, v) = d.decode_entry_key(key).unwrap();
            let k = prim(d, k, PrimitiveType::U8);
            let v = d.decode_entry_value(v).unwrap();
            got.push((k, prim(d, v, PrimitiveType::U8)));
        }
        d.decode_map_end(map).unwrap();
        assert_eq!(got, vec![(Primitive::U8(51), Primitive::U8(52)), (Primitive::U8(53), Primitive::U8(54))]);
    }
    p.end().unwrap();
}

#[test]
fn test_none() {
    let mut schema = BinEncoderSchema::new();
    let mut w = BinEncoderBuilder::new(&mut schema);
    let any = w.build();
    w.encoder_mut().encode_none(any).unwrap();
    let found = w.end().unwrap();
    assert_eq!(body(&found), &[25]);
    let mut dschema = BinDecoderSchema::new();
    let mut p = BinDecoderBuilder::new(&found, &mut dschema);
    let any = p.build();
    assert!(p.decoder_mut().decode(any, DecodeHint::Option).unwrap().try_into_option().unwrap().is_none());
    p.end().unwrap();
}

#[test]
fn test_some() {
    let mut schema = BinEncoderSchema::new();
    let mut w = BinEncoderBuilder::new(&mut schema);
    let any = w.build();
    {
        let e = w.encoder_mut();
        let (inner, closer) = e.encode_some(any).unwrap();
        e.encode_prim(inner, Primitive::Unit).unwrap();
        e.some_end(closer).unwrap();
    }
    let found = w.end().unwrap();
    assert_eq!(body(&found), &[26, 0]);
    let mut dschema = BinDecoderSchema::new();
    let mut p = BinDecoderBuilder::new(&found, &mut dschema);
    let any = p.build();
    {
        let d = p.decoder_mut();
        let some = d.decode(any, DecodeHint::Option).unwrap().try_into_option().unwrap().unwrap();
        let (inner, closer) = d.decode_some_inner(some).unwrap();
        assert_eq!(prim(d, inner, PrimitiveType::Unit), Primitive::Unit);
        d.decode_some_end(closer).unwrap();
    }
    p.end().unwrap();
}

#[test]
fn schema_is_shared_across_messages() {
    let mut schema = BinEncoderSchema::new();
    let mut messages = vec![];
    for (abc, xyz) in [(1u8, 2u32), (3, 4)] {
        let mut w = BinEncoderBuilder::new(&mut schema);
        let any = w.build();
        encode_foo(w.encoder_mut(), any, abc, xyz);
        messages.push(w.end().unwrap());
    }
    // The second message refers to the definition that the first wrote.
    assert_eq!(body(&messages[1]), &[16, 0, 7, 3, 9, 4]);
    let mut dschema = BinDecoderSchema::new();
    for (m, want) in messages.iter().zip([(1u8, 2u32), (3, 4)]) {
        let mut p = BinDecoderBuilder::new(m, &mut dschema);
        let any = p.build();
        let got = decode_struct(p.decoder_mut(), any, "Foo", FOO_FIELDS, &[PrimitiveType::U8, PrimitiveType::U32]);
        assert_eq!(got, vec![Some(Primitive::U8(want.0)), Some(Primitive::U32(want.1))]);
        p.end().unwrap();
    }
    // Without the first message, the reference is unknown.
    let mut fresh = BinDecoderSchema::new();
    let mut p = BinDecoderBuilder::new(&messages[1], &mut fresh);
    let any = p.build();
    let r = p.decoder_mut().decode(any, DecodeHint::Struct { name: "Foo", fields: FOO_FIELDS });
    assert!(matches!(r, Err(Error::BinDecoder(BinDecoderError::NoSuchEnumDef))));
}

#[test]
fn decoder_errors() {
    // An unknown tag.
    let data = [200u8];
    let mut s = BinDecoderSchema::new();
    let mut p = BinDecoderBuilder::new(&data, &mut s);
    let any = p.build();
    assert!(matches!(p.decoder_mut().decode(any, DecodeHint::Any), Err(Error::BinDecoder(BinDecoderError::BadTag(200)))));
    // The end of the input.
    let data: [u8; 0] = [];
    let mut s = BinDecoderSchema::new();
    let mut p = BinDecoderBuilder::new(&data, &mut s);
    let any = p.build();
    assert!(matches!(p.decoder_mut().decode(any, DecodeHint::Any), Err(Error::BinDecoder(BinDecoderError::Eof))));
    // A string that is not UTF-8.
    let data = [22u8, 1, 0xff];
    let mut s = BinDecoderSchema::new();
    let mut p = BinDecoderBuilder::new(&data, &mut s);
    let any = p.build();
    assert!(matches!(p.decoder_mut().decode(any, DecodeHint::String), Err(Error::InvalidUtf8)));
    // A u8 tag with a value that does not fit.
    let data = [7u8, 0xAC, 0x04];
    let mut s = BinDecoderSchema::new();
    let mut p = BinDecoderBuilder::new(&data, &mut s);
    let any = p.build();
    assert!(matches!(p.decoder_mut().decode(any, DecodeHint::Any), Err(Error::IntConversion)));
    // An enum value without an enum hint has no variants to pick from.
    let data = [21u8, 1, 1, b'A', 18, 0, 0, 0];
    let mut s = BinDecoderSchema::new();
    let mut p = BinDecoderBuilder::new(&data, &mut s);
    let any = p.build();
    assert!(matches!(
        p.decoder_mut().decode(any, DecodeHint::Any),
        Err(Error::BinDecoder(BinDecoderError::NoSuchVariant(0)))
    ));
}

#[test]
fn trailing_data_and_padding() {
    let data = [0u8; 19];
    let mut s = BinDecoderSchema::new();
    let mut p = BinDecoderBuilder::new(&data, &mut s);
    let any = p.build();
    assert_eq!(prim(p.decoder_mut(), any, PrimitiveType::Unit), Primitive::Unit);
    assert!(matches!(p.end(), Err(Error::BinDecoder(BinDecoderError::TrailingData))));
    let mut data = [0u8; 18];
    data[5] = 1;
    let mut s = BinDecoderSchema::new();
    let mut p = BinDecoderBuilder::new(&data, &mut s);
    let any = p.build();
    assert_eq!(prim(p.decoder_mut(), any, PrimitiveType::Unit), Primitive::Unit);
    assert!(matches!(p.end(), Err(Error::BinDecoder(BinDecoderError::NonZeroPadding))));
}

#[test]
fn sequence_without_length() {
    let mut schema = BinEncoderSchema::new();
    let mut w = BinEncoderBuilder::new(&mut schema);
    let any = w.build();
    assert!(matches!(
        w.encoder_mut().encode_seq(any, None),
        Err(Error::BinEncoder(BinEncoderError::MissingLen))
    ));
}

#[test]
fn primitives_round_trip() {
    let values = [
        Primitive::Bool(true),
        Primitive::I8(-5),
        Primitive::I16(-300),
        Primitive::I32(i32::MIN),
        Primitive::I64(i64::MAX),
        Primitive::I128(i128::MIN),
        Primitive::U16(u16::MAX),
        Primitive::U32(u32::MAX),
        Primitive::U64(u64::MAX),
        Primitive::U128(u128::MAX),
        Primitive::F32(1.5f32.to_bits()),
        Primitive::Char('é'),
    ];
    for v in values {
        let mut schema = BinEncoderSchema::new();
        let mut w = BinEncoderBuilder::new(&mut schema);
        let any = w.build();
        w.encoder_mut().encode_prim(any, v).unwrap();
        let found = w.end().unwrap();
        let mut dschema = BinDecoderSchema::new();
        let mut p = BinDecoderBuilder::new(&found, &mut dschema);
        let any = p.build();
        match p.decoder_mut().decode(any, DecodeHint::Any).unwrap() {
            SimpleDecoderView::Primitive(got) => assert_eq!(got, v),
            _ => panic!("expected a primitive"),
        }
        p.end().unwrap();
    }
}

#[test]
fn f64_tag_reads_a_32_bit_payload() {
    // The reader takes the payload after a 64-bit float tag as a 32-bit one.
    let data = [13u8, 5];
    let mut s = BinDecoderSchema::new();
    let mut p = BinDecoderBuilder::new(&data, &mut s);
    let any = p.build();
    let v = p.decoder_mut().decode(any, DecodeHint::Any).unwrap();
    assert!(matches!(v, SimpleDecoderView::Primitive(Primitive::F32(_))));
}

#[test]
fn struct_helper_skips_unknown_fields() {
    let mut schema = BinEncoderSchema::new();
    let mut w = BinEncoderBuilder::new(&mut schema);
    let any = w.build();
    encode_foo(w.encoder_mut(), any, 123, 124);
    let found = w.end().unwrap();
    // The reading type only knows the field `xyz`: the entry `abc` is skipped.
    const ONLY_XYZ: &[&str] = &["xyz"];
    let mut dschema = BinDecoderSchema::new();
    let mut p = BinDecoderBuilder::new(&found, &mut dschema);
    let any = p.build();
    {
        let d = p.decoder_mut();
        let mut h = StructDecoderHelper::decode_struct_helper(d, any, "Foo", ONLY_XYZ).unwrap();
        let (n, value) = h.next(d).unwrap().unwrap();
        assert_eq!(n, 0);
        assert_eq!(prim(d, value, PrimitiveType::U32), Primitive::U32(124));
        assert!(h.next(d).unwrap().is_none());
        // Once ended, the helper has nothing more to give.
        assert!(h.next(d).unwrap().is_none());
    }
    p.end().unwrap();
    // A value that is not a map is refused.
    let mut dschema = BinDecoderSchema::new();
    let data = [7u8, 1];
    let mut p = BinDecoderBuilder::new(&data, &mut dschema);
    let any = p.build();
    let got = StructDecoderHelper::decode_struct_helper(p.decoder_mut(), any, "Foo", FOO_FIELDS);
    assert!(matches!(got, Err(Error::TypeMismatch(m)) if m.found == "u8" && m.expected == "map"));
}

#[test]
fn ignore_skips_a_whole_value() {
    let mut schema = BinEncoderSchema::new();
    let mut w = BinEncoderBuilder::new(&mut schema);
    let any = w.build();
    {
        let e = w.encoder_mut();
        let mut s = e.encode_seq(any, Some(2)).unwrap();
        let a = e.seq_encode_element(&mut s).unwrap();
        let mut t = e.encode_tuple(a, 2).unwrap();
        let x = e.tuple_encode_element(&mut t).unwrap();
        e.encode_prim(x, Primitive::U8(1)).unwrap();
        let x = e.tuple_encode_element(&mut t).unwrap();
        e.encode_str(x, "two").unwrap();
        e.tuple_end(t).unwrap();
        let a = e.seq_encode_element(&mut s).unwrap();
        let mut m = e.encode_map(a, Some(1)).unwrap();
        let (k, v) = e.map_encode_element(&mut m).unwrap();
        e.encode_str(k, "key").unwrap();
        let (v, c) = e.entry_encode_value(v).unwrap();
        let (x, sc) = e.encode_some(v).unwrap();
        e.encode_bytes(x, &[1, 2, 3]).unwrap();
        e.some_end(sc).unwrap();
        e.entry_end(c).unwrap();
        e.map_end(m).unwrap();
        e.seq_end(s).unwrap();
    }
    let found = w.end().unwrap();
    let mut dschema = BinDecoderSchema::new();
    let mut p = BinDecoderBuilder::new(&found, &mut dschema);
    let any = p.build();
    ignore(p.decoder_mut(), any).unwrap();
    // Everything was read: only the padding is left.
    p.end().unwrap();
    // A truncated input cannot be skipped.
    let cut = &found[..4];
    let mut dschema = BinDecoderSchema::new();
    let mut p = BinDecoderBuilder::new(cut, &mut dschema);
    let any = p.build();
    assert!(ignore(p.decoder_mut(), any).is_err());
    // Without field names from the target type, a struct is seen as a map
    // with no entries: skipping it leaves its field values in the input.
    let mut schema = BinEncoderSchema::new();
    let mut w = BinEncoderBuilder::new(&mut schema);
    let any = w.build();
    encode_foo(w.encoder_mut(), any, 1, 2);
    let found = w.end().unwrap();
    let mut dschema = BinDecoderSchema::new();
    let mut p = BinDecoderBuilder::new(&found, &mut dschema);
    let any = p.build();
    ignore(p.decoder_mut(), any).unwrap();
    assert_eq!(p.end(), Err(Error::BinDecoder(BinDecoderError::TrailingData)));
}


#[test]
fn enum_helper_reads_a_tuple_variant() {
    const VARIANTS: &[&str] = &["U", "T", "V"];
    let mut schema = BinEncoderSchema::new();
    let mut w = BinEncoderBuilder::new(&mut schema);
    let any = w.build();
    {
        let e = w.encoder_mut();
        let mut t = e.encode_tuple_variant(any, "AllVariants", VARIANTS, 1, 2).unwrap();
        let x = e.tuple_variant_encode_field(&mut t).unwrap();
        e.encode_prim(x, Primitive::U8(51)).unwrap();
        let x = e.tuple_variant_encode_field(&mut t).unwrap();
        e.encode_prim(x, Primitive::U16(52)).unwrap();
        e.tuple_variant_end(t).unwrap();
    }
    let found = w.end().unwrap();
    let mut dschema = BinDecoderSchema::new();
    let mut p = BinDecoderBuilder::new(&found, &mut dschema);
    let any = p.build();
    {
        let d = p.decoder_mut();
        let (n, variant) = decode_enum_helper(d, any, "AllVariants", VARIANTS).unwrap();
        assert_eq!(n, 1);
        let (mut t, closer) = decode_tuple_variant_helper(d, variant, 2).unwrap();
        let x = t.decode_next(d).unwrap();
        assert_eq!(prim(d, x, PrimitiveType::U8), Primitive::U8(51));
        let x = t.decode_next(d).unwrap();
        assert_eq!(prim(d, x, PrimitiveType::U16), Primitive::U16(52));
        t.decode_end(d, 2).unwrap();
        d.decode_enum_end(closer).unwrap();
    }
    p.end().unwrap();
    // A reader whose type has no variant of that name.
    const OTHERS: &[&str] = &["U", "V"];
    let mut dschema = BinDecoderSchema::new();
    let mut p = BinDecoderBuilder::new(&found, &mut dschema);
    let any = p.build();
    assert!(matches!(
        decode_enum_helper(p.decoder_mut(), any, "AllVariants", OTHERS),
        Err(Error::Schema(SchemaError::UnknownVariant))
    ));
}

#[test]
fn depth_budget_refuses_the_101st_level() {
    // One hundred and one options, each inside the one before.
    let mut data = vec![26u8; 101];
    data.push(0);
    let mut s = BinDecoderSchema::new();
    let mut p = BinDecoderBuilder::new(&data, &mut s);
    let mut any = p.build();
    let d = p.decoder_mut();
    for _ in 0..100 {
        let some = d.decode(any, DecodeHint::Option).unwrap().try_into_option().unwrap().unwrap();
        let (inner, _closer) = d.decode_some_inner(some).unwrap();
        any = inner;
    }
    assert!(matches!(d.decode(any, DecodeHint::Option), Err(Error::Overflow(_))));
}

#[test]
fn field_index_reads_indices_and_names() {
    let by_index = field_index::<SimpleBinDecoder>(SimpleDecoderView::Primitive(Primitive::U64(1)), FOO_FIELDS);
    assert_eq!(by_index, Ok(Some(1)));
    let past = field_index::<SimpleBinDecoder>(SimpleDecoderView::Primitive(Primitive::U64(2)), FOO_FIELDS);
    assert_eq!(past, Ok(None));
    let by_name = field_index::<SimpleBinDecoder>(SimpleDecoderView::String("xyz".to_string()), FOO_FIELDS);
    assert_eq!(by_name, Ok(Some(1)));
    let unknown = field_index::<SimpleBinDecoder>(SimpleDecoderView::String("zzz".to_string()), FOO_FIELDS);
    assert_eq!(unknown, Ok(None));
    let other = field_index::<SimpleBinDecoder>(SimpleDecoderView::Bytes(vec![1]), FOO_FIELDS);
    assert!(matches!(other, Err(Error::TypeMismatch(m)) if m.expected == "identifier"));
}
