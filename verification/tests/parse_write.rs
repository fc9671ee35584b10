use marshal_formats::bin_format::full::DEFAULT_DEPTH_BUDGET;
use marshal_formats::bin_format::parse::{BinAnyParser, BinParserBuilder, BinParserSchema, BinParserView, SimpleBinParser};
use marshal_formats::bin_format::write::{BinWriterBuilder, BinWriterSchema, SimpleBinWriter};
use marshal_formats::decode::DecodeVariantHint;
use marshal_formats::error::{BinParserError, BinWriterError, Error, ParsePoisonError};
use marshal_formats::parse::poison::PoisonParserView;
use marshal_formats::parse::EntryParser;
use marshal_formats::parse::ParseHint;
use marshal_formats::primitive::{Primitive, PrimitiveType};
use marshal_formats::vu128::VU128_PADDING;

#[test]
fn writer_writes_the_format() {
    let mut schema = BinWriterSchema::new();
    let mut w = SimpleBinWriter::new(&mut schema);
    w.write_tuple((), 2).unwrap();
    w.write_prim((), Primitive::U8(123)).unwrap();
    w.write_prim((), Primitive::U16(124)).unwrap();
    let out = w.end().unwrap();
    assert_eq!(&out[..out.len() - VU128_PADDING], &[15, 2, 7, 123, 8, 124]);

    let mut schema = BinWriterSchema::new();
    let mut w = SimpleBinWriter::new(&mut schema);
    w.write_unit_variant((), "E", &["A", "B"], 1).unwrap();
    w.write_tuple((), 300).unwrap();
    let out = w.end().unwrap();
    assert_eq!(&out[..out.len() - VU128_PADDING], &[21, 2, 1, b'A', 1, b'B', 18, 0, 1, 0, 15, 0xAC, 0x04]);
}

#[test]
fn writer_missing_lengths() {
    let mut schema = BinWriterSchema::new();
    let mut w = SimpleBinWriter::new(&mut schema);
    assert_eq!(w.write_seq((), None), Err(Error::BinWriter(BinWriterError::MissingLen)));
    assert_eq!(w.write_map((), None), Err(Error::BinWriter(BinWriterError::MissingLen)));
    let out = w.end().unwrap();
    // The map's tag was written before its length was found missing.
    assert_eq!(&out[..out.len() - VU128_PADDING], &[20]);
}

#[test]
fn parser_reads_the_format() {
    let data = [21u8, 2, 2, b'x', b'1', 2, b'x', b'2', 16, 0, 9, 51, 10, 52, 0, 0];
    let mut schema = BinParserSchema::new();
    let mut p = SimpleBinParser::new(&data, &mut schema);
    let fields: &'static [&'static str] = &["x2", "x1"];
    let mut map = match p.parse(BinAnyParser::Read, ParseHint::Struct { name: "S", fields }).unwrap() {
        BinParserView::Mapping(m) => m,
        _ => panic!("expected a map"),
    };
    let mut got = vec![];
    while let Some(key) = p.parse_map_next(&mut map).unwrap() {
        let (k, v) = p.parse_entry_key(key).unwrap();
        let index = match p.parse(k, ParseHint::Identifier).unwrap() {
            BinParserView::Primitive(Primitive::U32(i)) => i,
            _ => panic!("expected an index"),
        };
        let v = p.parse_entry_value(v).unwrap();
        let t = if index == 0 { PrimitiveType::U64 } else { PrimitiveType::U32 };
        match p.parse(v, ParseHint::Primitive(t)).unwrap() {
            BinParserView::Primitive(x) => got.push((index, x)),
            _ => panic!("expected a primitive"),
        }
    }
    assert_eq!(got, vec![(1, Primitive::U32(51)), (0, Primitive::U64(52))]);
    p.end().unwrap();
}

#[test]
fn parser_errors() {
    let data = [99u8];
    let mut schema = BinParserSchema::new();
    let mut p = SimpleBinParser::new(&data, &mut schema);
    assert!(matches!(p.parse(BinAnyParser::Read, ParseHint::Any), Err(Error::BinParser(BinParserError::BadTag))));
    let data = [18u8, 0, 0];
    let mut schema = BinParserSchema::new();
    let mut p = SimpleBinParser::new(&data, &mut schema);
    assert!(matches!(p.parse(BinAnyParser::Read, ParseHint::Any), Err(Error::BinParser(BinParserError::NoSuchEnumDef))));
    let data = [0u8; 19];
    let mut schema = BinParserSchema::new();
    let mut p = SimpleBinParser::new(&data, &mut schema);
    assert!(matches!(p.parse(BinAnyParser::Read, ParseHint::Any), Ok(BinParserView::Primitive(Primitive::Unit))));
    assert_eq!(p.end(), Err(Error::BinParser(BinParserError::TooMuchPadding)));
    // A variant's payload.
    let data = [21u8, 1, 1, b'A', 18, 0, 0, 0];
    let mut schema = BinParserSchema::new();
    let mut p = SimpleBinParser::new(&data, &mut schema);
    let d = match p.parse(BinAnyParser::Read, ParseHint::Enum { name: "E", variants: &["A"] }).unwrap() {
        BinParserView::Enum(d) => d,
        _ => panic!("expected an enum"),
    };
    let (k, ()) = p.parse_enum_discriminant(d).unwrap();
    assert!(matches!(p.parse(k, ParseHint::Identifier), Ok(BinParserView::Primitive(Primitive::U32(0)))));
    let (v, ()) = p.parse_enum_variant((), DecodeVariantHint::UnitVariant).unwrap();
    assert!(matches!(v, BinParserView::Primitive(Primitive::Unit)));
}

#[test]
fn builders_write_and_read_a_message() {
    let mut schema = BinWriterSchema::new();
    let mut b = BinWriterBuilder::new(&mut schema);
    b.build().write_prim((), Primitive::U32(300)).unwrap();
    let out = b.end().unwrap();
    assert_eq!(&out[..out.len() - VU128_PADDING], &[9, 0xAC, 0x04]);
    assert_eq!(out.len(), 3 + VU128_PADDING);

    let mut schema = BinParserSchema::new();
    let mut p = BinParserBuilder::new(&out, &mut schema);
    {
        let (parser, budget, any) = p.build();
        assert_eq!(budget, DEFAULT_DEPTH_BUDGET);
        assert!(matches!(
            any.parse(parser, ParseHint::Primitive(PrimitiveType::U32)).unwrap(),
            PoisonParserView::Primitive(Primitive::U32(300))
        ));
    }
    assert_eq!(p.end(), Ok(()));

    // A handle given up before it was used is reported at the end.
    let mut schema = BinParserSchema::new();
    let mut p = BinParserBuilder::new(&out, &mut schema);
    {
        let (_parser, _budget, _any) = p.build();
    }
    assert_eq!(p.end(), Err(Error::ParsePoison(ParsePoisonError("Did not call AnyParser::parse"))));

    // Input left over is reported at the end.
    let mut schema = BinParserSchema::new();
    let p = BinParserBuilder::new(&out, &mut schema);
    assert_eq!(p.end(), Err(Error::BinParser(BinParserError::TooMuchPadding)));
}

#[test]
fn writer_writes_vu128_values() {
    let mut schema = BinWriterSchema::new();
    let mut w = SimpleBinWriter::new(&mut schema);
    w.write_vu128(300u32).unwrap();
    w.write_vu128(-1i64).unwrap();
    w.write_vu128(5u128).unwrap();
    let out = w.end().unwrap();
    assert_eq!(&out[..out.len() - VU128_PADDING], &[0xAC, 0x04, 1, 5]);
}

#[test]
fn checked_parser_reads_a_sequence() {
    let data = [19u8, 2, 7, 1, 7, 2];
    let mut schema = BinParserSchema::new();
    let mut p = BinParserBuilder::new(&data, &mut schema);
    {
        let (parser, _budget, any) = p.build();
        let mut seq = match any.parse(parser, ParseHint::Sequence).unwrap() {
            PoisonParserView::Sequence(s) => s,
            _ => panic!("expected a sequence"),
        };
        let mut got = vec![];
        while let Some(item) = seq.parse_next(parser).unwrap() {
            match item.parse(parser, ParseHint::Primitive(PrimitiveType::U8)).unwrap() {
                PoisonParserView::Primitive(x) => got.push(x),
                _ => panic!("expected a primitive"),
            }
        }
        assert_eq!(got, vec![Primitive::U8(1), Primitive::U8(2)]);
    }
    assert_eq!(p.end(), Ok(()));

    // A sequence given up before its end poisons the message.
    let mut schema = BinParserSchema::new();
    let mut p = BinParserBuilder::new(&data, &mut schema);
    {
        let (parser, _budget, any) = p.build();
        let mut seq = match any.parse(parser, ParseHint::Sequence).unwrap() {
            PoisonParserView::Sequence(s) => s,
            _ => panic!("expected a sequence"),
        };
        let item = seq.parse_next(parser).unwrap().unwrap();
        let _ = item.parse(parser, ParseHint::Primitive(PrimitiveType::U8)).unwrap();
    }
    assert_eq!(p.end(), Err(Error::ParsePoison(ParsePoisonError("Did not finish consuming seq"))));
}

#[test]
fn checked_parser_orders_entries() {
    let data = [21u8, 2, 2, b'x', b'1', 2, b'x', b'2', 16, 0, 9, 51, 10, 52, 0, 0];
    let fields: &'static [&'static str] = &["x2", "x1"];
    let mut schema = BinParserSchema::new();
    let mut p = BinParserBuilder::new(&data, &mut schema);
    {
        let (parser, _budget, any) = p.build();
        let mut map = match any.parse(parser, ParseHint::Struct { name: "S", fields }).unwrap() {
            PoisonParserView::Mapping(m) => m,
            _ => panic!("expected a map"),
        };
        {
            let mut e = map.parse_next(parser).unwrap().unwrap();
            assert!(matches!(e.parse_value(parser), Err(Error::ParsePoison(ParsePoisonError("already read value")))));
            let k = e.parse_key(parser).unwrap();
            assert!(matches!(k.parse(parser, ParseHint::Identifier), Ok(PoisonParserView::Primitive(Primitive::U32(1)))));
            assert!(matches!(e.parse_key(parser), Err(Error::ParsePoison(ParsePoisonError("already read key")))));
            let v = e.parse_value(parser).unwrap();
            assert!(matches!(
                v.parse(parser, ParseHint::Primitive(PrimitiveType::U32)),
                Ok(PoisonParserView::Primitive(Primitive::U32(51)))
            ));
            assert_eq!(e.parse_end(parser), Ok(()));
        }
        {
            // Ending an entry whose value was not read is refused and poisons
            // the message.
            let e = map.parse_next(parser).unwrap().unwrap();
            assert_eq!(e.parse_end(parser), Err(Error::ParsePoison(ParsePoisonError("did not read value"))));
        }
        assert!(matches!(
            map.parse_next(parser),
            Err(Error::ParsePoison(ParsePoisonError("Did not finish consuming entry")))
        ));
    }
    // The map, given up before its end, has the last word.
    assert_eq!(p.end(), Err(Error::ParsePoison(ParsePoisonError("Did not finish consuming map"))));
}

#[test]
fn checked_parser_orders_enums_and_options() {
    let data = [21u8, 1, 1, b'A', 18, 0, 0, 0];
    let mut schema = BinParserSchema::new();
    let mut p = BinParserBuilder::new(&data, &mut schema);
    {
        let (parser, _budget, any) = p.build();
        let mut e = match any.parse(parser, ParseHint::Enum { name: "E", variants: &["A"] }).unwrap() {
            PoisonParserView::Enum(e) => e,
            _ => panic!("expected an enum"),
        };
        assert!(matches!(
            e.parse_variant(parser, DecodeVariantHint::UnitVariant),
            Err(Error::ParsePoison(ParsePoisonError("did not read discriminant")))
        ));
        let k = e.parse_discriminant(parser).unwrap();
        assert!(matches!(k.parse(parser, ParseHint::Identifier), Ok(PoisonParserView::Primitive(Primitive::U32(0)))));
        assert!(matches!(
            e.parse_discriminant(parser),
            Err(Error::ParsePoison(ParsePoisonError("already read discriminant")))
        ));
        assert!(matches!(
            e.parse_variant(parser, DecodeVariantHint::UnitVariant),
            Ok(PoisonParserView::Primitive(Primitive::Unit))
        ));
        assert!(matches!(
            e.parse_variant(parser, DecodeVariantHint::UnitVariant),
            Err(Error::ParsePoison(ParsePoisonError("already read variant")))
        ));
        assert_eq!(e.parse_end(parser), Ok(()));
    }
    assert_eq!(p.end(), Ok(()));

    let data = [26u8, 7, 5];
    let mut schema = BinParserSchema::new();
    let mut p = BinParserBuilder::new(&data, &mut schema);
    {
        let (parser, _budget, any) = p.build();
        let mut s = match any.parse(parser, ParseHint::Option).unwrap() {
            PoisonParserView::Present(s) => s,
            _ => panic!("expected a present option"),
        };
        let a = s.parse_some(parser).unwrap();
        assert!(matches!(
            a.parse(parser, ParseHint::Primitive(PrimitiveType::U8)),
            Ok(PoisonParserView::Primitive(Primitive::U8(5)))
        ));
        assert!(matches!(s.parse_some(parser), Err(Error::ParsePoison(ParsePoisonError("already read some")))));
        assert_eq!(s.parse_end(parser), Ok(()));
    }
    assert_eq!(p.end(), Ok(()));

    // Ending an option whose payload was not read is refused.
    let mut schema = BinParserSchema::new();
    let mut p = BinParserBuilder::new(&data, &mut schema);
    {
        let (parser, _budget, any) = p.build();
        let s = match any.parse(parser, ParseHint::Option).unwrap() {
            PoisonParserView::Present(s) => s,
            _ => panic!("expected a present option"),
        };
        assert_eq!(s.parse_end(parser), Err(Error::ParsePoison(ParsePoisonError("did not read some"))));
    }
    assert_eq!(p.end(), Err(Error::ParsePoison(ParsePoisonError("Did not finish reading some"))));
}
