use marshal_formats::bin_format::TypeTag;
use marshal_formats::bin_format::decode::{BinAnyDecoder, BinDecoderSchema, SimpleBinDecoder};
use marshal_formats::decode::depth_budget::{DepthBudgetDecoder, WithDepthBudget};
use marshal_formats::decode::poison::PoisonDecoder;
use marshal_formats::decode::tuple_helper::{TupleHelper, element_or_too_short, end_or_too_long};
use marshal_formats::decode::{DecodeHint, SimpleDecoderView, SpecDecoder};
use marshal_formats::encode::SpecEncoder;
use marshal_formats::encode::poison::PoisonEncoder;
use marshal_formats::error::{DecodePoisonError, EncodePoisonError, Error, OverflowError, ReadError, SchemaError};
use marshal_formats::fixed::encode::SimpleFixedSpecEncoder;
use marshal_formats::parse::poison::{PoisonError, PoisonGuard, PoisonState};
use marshal_formats::payload::{read_payload, swap_bytes32, swap_bytes64, write_payload};
use marshal_formats::primitive::{Primitive, PrimitiveType};
use marshal_formats::text::{names_eq, str_eq, str_position, utf8_string};
use marshal_formats::vu128::ToFromVu128;
use marshal_formats::vu128::{read_i32, read_u128, read_u32, read_u64, write_i32, write_i64, write_i128, write_u32, write_u64, write_u128};

#[test]
fn vu128_known_encodings() {
    let mut out = vec![];
    write_u32(&mut out, 300);
    assert_eq!(out, vec![0xAC, 0x04]);
    let mut out = vec![];
    write_u32(&mut out, 0x12345678);
    assert_eq!(out, vec![0xF3, 0x78, 0x56, 0x34, 0x12]);
    let mut out = vec![];
    write_u32(&mut out, 0xABCDE);
    assert_eq!(out, vec![0xDE, 0xE6, 0x55]);
    let mut out = vec![];
    write_u64(&mut out, 5);
    assert_eq!(out, vec![5]);
    let mut out = vec![];
    write_i32(&mut out, -1);
    assert_eq!(out, vec![1]);
    let mut out = vec![];
    write_i32(&mut out, 1);
    assert_eq!(out, vec![2]);
}

#[test]
fn vu128_read_back() {
    let mut out = vec![9u8];
    write_u32(&mut out, u32::MAX);
    write_u64(&mut out, u64::MAX);
    write_u128(&mut out, u128::MAX);
    write_i32(&mut out, i32::MIN);
    let (a, p) = read_u32(&out, 1).unwrap();
    assert_eq!(a, u32::MAX);
    let (b, p) = read_u64(&out, p).unwrap();
    assert_eq!(b, u64::MAX);
    let (c, p) = read_u128(&out, p).unwrap();
    assert_eq!(c, u128::MAX);
    let (d, p) = read_i32(&out, p).unwrap();
    assert_eq!(d, i32::MIN);
    assert_eq!(p, out.len());
    // A value that runs past the end of the input.
    assert!(read_u32(&[0xAC], 0).is_none());
    let mut out = vec![];
    write_i64(&mut out, -3);
    write_i128(&mut out, 3);
    assert_eq!(out, vec![5, 6]);
}

#[test]
fn payloads() {
    assert_eq!(swap_bytes32(0x11223344), 0x44332211);
    assert_eq!(swap_bytes64(0x1122334455667788), 0x8877665544332211);
    let mut out = vec![];
    write_payload(&mut out, Primitive::Bool(true));
    write_payload(&mut out, Primitive::Char('A'));
    write_payload(&mut out, Primitive::I16(-2));
    assert_eq!(out, vec![1, 65, 3]);
    assert_eq!(read_payload(&out, 0, PrimitiveType::Bool), Ok((Primitive::Bool(true), 1)));
    assert_eq!(read_payload(&out, 1, PrimitiveType::Char), Ok((Primitive::Char('A'), 2)));
    assert_eq!(read_payload(&out, 2, PrimitiveType::I16), Ok((Primitive::I16(-2), 3)));
    assert_eq!(read_payload(&[2], 0, PrimitiveType::Bool), Err(ReadError::IntConversion));
    let mut big = vec![];
    write_u32(&mut big, 0xD800);
    assert_eq!(read_payload(&big, 0, PrimitiveType::Char), Err(ReadError::InvalidChar));
    assert_eq!(read_payload(&[], 0, PrimitiveType::U8), Err(ReadError::Eof));
    let mut f = vec![];
    write_payload(&mut f, Primitive::F64(2.5f64.to_bits()));
    assert_eq!(read_payload(&f, 0, PrimitiveType::F64), Ok((Primitive::F64(2.5f64.to_bits()), f.len())));
}

#[test]
fn text_helpers() {
    assert!(str_eq("abc", "abc"));
    assert!(!str_eq("abc", "abd"));
    assert_eq!(str_position(&["x", "y", "x"], "x"), Some(0));
    assert_eq!(str_position(&["x", "y"], "y"), Some(1));
    assert_eq!(str_position(&["x", "y"], "z"), None);
    assert!(names_eq(&["a", "b"], &["a", "b"]));
    assert!(!names_eq(&["a", "b"], &["b", "a"]));
    assert_eq!(utf8_string(b"h\xc3\xa9"), Some("hé".to_string()));
    assert_eq!(utf8_string(&[0xff]), None);
}

#[test]
fn tags() {
    for b in 0u8..=26 {
        let t = TypeTag::from_u8(b).unwrap();
        assert_eq!(t.to_u8(), b);
    }
    assert_eq!(TypeTag::from_u8(27), None);
    assert_eq!(TypeTag::of_primitive(PrimitiveType::U8), TypeTag::U8);
}

#[test]
fn primitive_conversions() {
    assert_eq!(Primitive::U8(7).to_usize(), Ok(7));
    assert_eq!(Primitive::I8(-1).to_usize(), Err(Error::IntConversion));
    assert_eq!(Primitive::U16(3).kind(), "u16");
    assert!(matches!(Primitive::F32(0).to_usize(), Err(Error::TypeMismatch(_))));
}

#[test]
fn poison_encoder_refuses_out_of_order_handles() {
    let mut e = PoisonEncoder::new(SimpleFixedSpecEncoder::new());
    let any = e.start(());
    let mut t = e.encode_tuple(any, 2).unwrap();
    let a = e.tuple_encode_element(&mut t).unwrap();
    // The element handle is open: the tuple handle may not be used now.
    assert!(matches!(e.tuple_encode_element(&mut t), Err(Error::EncodePoison(EncodePoisonError::UnexpectedEncodeState))));
    e.encode_prim(a, Primitive::U8(1)).unwrap();
    e.tuple_end(t).unwrap();
    assert!(e.end().is_ok());
    // A message whose value was never written.
    let mut e = PoisonEncoder::new(SimpleFixedSpecEncoder::new());
    let _any = e.start(());
    assert!(matches!(e.end(), Err(Error::EncodePoison(EncodePoisonError::UnexpectedEncodeState))));
}

#[test]
fn poison_decoder_refuses_out_of_order_handles() {
    let data = [15u8, 2, 7, 1, 7, 2];
    let mut schema = BinDecoderSchema::new();
    let mut d = PoisonDecoder::new(SimpleBinDecoder::new(&data, &mut schema));
    let any = d.start(BinAnyDecoder::Read);
    let mut s = d.decode(any, DecodeHint::Tuple { len: 2 }).unwrap().try_into_seq().unwrap();
    let a = d.decode_seq_next(&mut s).unwrap().unwrap();
    assert!(matches!(d.decode_seq_next(&mut s), Err(Error::DecodePoison(DecodePoisonError::UnexpectedDecodeState))));
    assert!(matches!(d.decode(a, DecodeHint::Any).unwrap(), SimpleDecoderView::Primitive(Primitive::U8(1))));
    let a = d.decode_seq_next(&mut s).unwrap().unwrap();
    assert!(matches!(d.decode(a, DecodeHint::Any).unwrap(), SimpleDecoderView::Primitive(Primitive::U8(2))));
    assert!(d.decode_seq_next(&mut s).unwrap().is_none());
    d.decode_seq_end(s).unwrap();
    assert!(d.end().is_ok());
}

#[test]
fn depth_budget_runs_out() {
    // Three nested tuples need three units of budget.
    let data = [15u8, 1, 15, 1, 15, 0];
    for (budget, ok) in [(2usize, false), (3, true)] {
        let mut schema = BinDecoderSchema::new();
        let mut d = DepthBudgetDecoder::new(SimpleBinDecoder::new(&data, &mut schema));
        let mut any = WithDepthBudget::new(budget, BinAnyDecoder::Read);
        let mut failed = false;
        for level in 0..3 {
            match d.decode(any, DecodeHint::Any) {
                Ok(v) => {
                    let mut s = v.try_into_seq().unwrap();
                    if level < 2 {
                        any = d.decode_seq_next(&mut s).unwrap().unwrap();
                    } else {
                        assert!(d.decode_seq_next(&mut s).unwrap().is_none());
                        break;
                    }
                },
                Err(e) => {
                    assert_eq!(e, Error::Overflow(OverflowError));
                    failed = true;
                    break;
                },
            }
        }
        assert_eq!(failed, !ok);
    }
}

#[test]
fn tuple_helper() {
    assert_eq!(element_or_too_short(Some(3)), Ok(3));
    assert_eq!(element_or_too_short::<u8>(None), Err(Error::Schema(SchemaError::TupleTooShort)));
    assert_eq!(end_or_too_long::<u8>(None, 2), Ok(()));
    assert_eq!(end_or_too_long(Some(1u8), 2), Err(Error::Schema(SchemaError::TupleTooLong { expected: 2 })));
    let data = [15u8, 2, 7, 1, 7, 2];
    let mut schema = BinDecoderSchema::new();
    let mut d = SimpleBinDecoder::new(&data, &mut schema);
    let s = d.decode(BinAnyDecoder::Read, DecodeHint::Tuple { len: 1 }).unwrap().try_into_seq().unwrap();
    let mut t = TupleHelper::<SimpleBinDecoder>::new(s);
    let a = t.decode_next(&mut d).unwrap();
    assert!(matches!(d.decode(a, DecodeHint::Any).unwrap(), SimpleDecoderView::Primitive(Primitive::U8(1))));
    assert_eq!(t.decode_end(&mut d, 1), Err(Error::Schema(SchemaError::TupleTooLong { expected: 1 })));
}

#[test]
fn tuple_helper_ends_the_sequence() {
    // A tuple of exactly one item, read through the order-checking decoder:
    // the helper ends the sequence, so the message can be finished.
    let data = [15u8, 1, 7, 5];
    let mut schema = BinDecoderSchema::new();
    let mut d = PoisonDecoder::new(SimpleBinDecoder::new(&data, &mut schema));
    let any = d.start(BinAnyDecoder::Read);
    let s = d.decode(any, DecodeHint::Tuple { len: 1 }).unwrap().try_into_seq().unwrap();
    let mut t = TupleHelper::<PoisonDecoder<SimpleBinDecoder>>::new(s);
    let a = t.decode_next(&mut d).unwrap();
    assert!(matches!(d.decode(a, DecodeHint::Any).unwrap(), SimpleDecoderView::Primitive(Primitive::U8(5))));
    assert_eq!(t.decode_end(&mut d, 1), Ok(()));
    assert!(d.end().is_ok());
    // A tuple with fewer items than expected.
    let data = [15u8, 0];
    let mut schema = BinDecoderSchema::new();
    let mut d = PoisonDecoder::new(SimpleBinDecoder::new(&data, &mut schema));
    let any = d.start(BinAnyDecoder::Read);
    let s = d.decode(any, DecodeHint::Tuple { len: 1 }).unwrap().try_into_seq().unwrap();
    let mut t = TupleHelper::<PoisonDecoder<SimpleBinDecoder>>::new(s);
    assert!(matches!(t.decode_next(&mut d), Err(Error::Schema(SchemaError::TupleTooShort))));
    assert!(d.end().is_ok());
}

#[test]
fn parse_poison_guard() {
    let mut state = PoisonState::new();
    {
        let mut g = PoisonGuard::new(&mut state, "Did not finish consuming seq");
        assert_eq!(g.check(), Ok(()));
        let _ = g.state();
        let _ = g.defuse();
        g.abandon();
    }
    assert_eq!(PoisonState { poisoned: state.poisoned }.check(), Ok(()));
    {
        let g = PoisonGuard::new(&mut state, "Did not finish consuming map");
        g.abandon();
    }
    assert_eq!(state.check(), Err(PoisonError("Did not finish consuming map")));
    let mut state = PoisonState::new();
    let g = PoisonGuard::new(&mut state, "unused");
    let s = g.defuse_into();
    assert_eq!(s.poisoned, Ok(()));
}

#[test]
fn parse_poison_guard_dropped_while_armed() {
    let mut state = PoisonState::new();
    {
        let mut g = PoisonGuard::new(&mut state, "Did not finish consuming seq");
        // Lending the state to a nested handle keeps the guard armed.
        assert_eq!(g.state().poisoned, Ok(()));
    }
    assert_eq!(state.check(), Err(PoisonError("Did not finish consuming seq")));
    let mut state = PoisonState::new();
    {
        let mut g = PoisonGuard::new(&mut state, "Did not finish consuming map");
        let _ = g.defuse();
    }
    assert_eq!(state.check(), Ok(()));
}

#[test]
fn fixed_encoder_writes_no_tags() {
    let mut e = SimpleFixedSpecEncoder::new();
    e.encode_prim((), Primitive::U8(7)).unwrap();
    e.encode_str((), "hi").unwrap();
    e.encode_none(()).unwrap();
    let out = e.end().unwrap();
    assert_eq!(&out[..5], &[7, 2, b'h', b'i', 0]);
}

#[test]
fn vu128_by_type() {
    let mut out = vec![];
    u32::encode_vu128(&mut out, 300);
    i64::encode_vu128(&mut out, -2);
    u128::encode_vu128(&mut out, 7);
    assert_eq!(out, vec![0xAC, 0x04, 3, 7]);
    assert_eq!(u32::decode_vu128(&out, 0), Some((300, 2)));
    assert_eq!(i64::decode_vu128(&out, 2), Some((-2, 3)));
    assert_eq!(u128::decode_vu128(&out, 3), Some((7, 4)));
}
