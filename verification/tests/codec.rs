use remmy::deserialize::Deserialize;
use remmy::errors::RPCError;
use remmy::serialize::Serialize;
use remmy::stream::{fill_buf, write_buf, MemStream};
use remmy::transportable::encode_then_decode;

#[test]
fn serdeser_u64() {
    let mut buff = MemStream::new();
    let a: u64 = 100;
    {
        a.encode_stream(&mut buff).unwrap();
    }
    let x: Result<u64, RPCError> = u64::decode_stream(&mut buff);
    match x {
        Ok(x) => assert_eq!(x, a),
        _ => panic!("Failed to deserialize {} properly", a),
    }
}

#[test]
fn serdeser_string() {
    let mut buff = MemStream::new();
    let a: String = "12345678".to_string();
    {
        a.encode_stream(&mut buff).unwrap();
    }
    let x: Result<String, RPCError> = String::decode_stream(&mut buff);
    match x {
        Ok(x) => assert_eq!(x, a),
        _ => panic!("Failed to deserialize {} properly", a),
    }
}

#[test]
fn serdeser_result_ok_string() {
    let mut buff = MemStream::new();
    let a: String = "1234567".to_string();
    {
        let b: Result<String, RPCError> = Ok(a.clone());
        b.encode_stream(&mut buff).unwrap();
    }
    let x: Result<Result<String, RPCError>, RPCError> =
        Result::<String, RPCError>::decode_stream(&mut buff);
    match x {
        Ok(Ok(x)) => assert_eq!(x, a),
        _ => panic!("Failed to deserialize {} properly", a),
    }
}

#[test]
fn serdeser_result_err() {
    let mut buff = MemStream::new();
    let r: Result<String, RPCError> = Err(RPCError::SerializationError);
    r.encode_stream(&mut buff).unwrap();
    let x: Result<Result<String, RPCError>, RPCError> =
        Result::<String, RPCError>::decode_stream(&mut buff);
    match x {
        Ok(Err(RPCError::SerializationError)) => (),
        _ => panic!("Failed to deserialize Err(SerializationError) properly"),
    }
}

#[test]
fn round_trip_unsigned_bounds() {
    let mut s = MemStream::new();
    assert_eq!(encode_then_decode(&0u8, &mut s).unwrap(), 0u8);
    assert_eq!(encode_then_decode(&255u8, &mut s).unwrap(), 255u8);
    assert_eq!(encode_then_decode(&0u16, &mut s).unwrap(), 0u16);
    assert_eq!(encode_then_decode(&u16::MAX, &mut s).unwrap(), u16::MAX);
    assert_eq!(encode_then_decode(&0u32, &mut s).unwrap(), 0u32);
    assert_eq!(encode_then_decode(&u32::MAX, &mut s).unwrap(), u32::MAX);
    assert_eq!(encode_then_decode(&0u64, &mut s).unwrap(), 0u64);
    assert_eq!(encode_then_decode(&u64::MAX, &mut s).unwrap(), u64::MAX);
}

#[test]
fn round_trip_signed_bounds() {
    let mut s = MemStream::new();
    assert_eq!(encode_then_decode(&i8::MIN, &mut s).unwrap(), i8::MIN);
    assert_eq!(encode_then_decode(&i8::MAX, &mut s).unwrap(), i8::MAX);
    assert_eq!(encode_then_decode(&-1i8, &mut s).unwrap(), -1i8);
    assert_eq!(encode_then_decode(&i16::MIN, &mut s).unwrap(), i16::MIN);
    assert_eq!(encode_then_decode(&i16::MAX, &mut s).unwrap(), i16::MAX);
    assert_eq!(encode_then_decode(&i32::MIN, &mut s).unwrap(), i32::MIN);
    assert_eq!(encode_then_decode(&i32::MAX, &mut s).unwrap(), i32::MAX);
    assert_eq!(encode_then_decode(&i64::MIN, &mut s).unwrap(), i64::MIN);
    assert_eq!(encode_then_decode(&i64::MAX, &mut s).unwrap(), i64::MAX);
    assert_eq!(encode_then_decode(&-42i64, &mut s).unwrap(), -42i64);
}

#[test]
fn round_trip_bool_unit() {
    let mut s = MemStream::new();
    assert_eq!(encode_then_decode(&true, &mut s).unwrap(), true);
    assert_eq!(encode_then_decode(&false, &mut s).unwrap(), false);
    assert_eq!(encode_then_decode(&(), &mut s).unwrap(), ());
}

#[test]
fn round_trip_strings() {
    let mut s = MemStream::new();
    assert_eq!(encode_then_decode(&String::new(), &mut s).unwrap(), "");
    assert_eq!(
        encode_then_decode(&"hello".to_string(), &mut s).unwrap(),
        "hello"
    );
    let multibyte = "héllo wörld — ✓".to_string();
    assert_eq!(encode_then_decode(&multibyte, &mut s).unwrap(), multibyte);
}

#[test]
fn round_trip_option() {
    let mut s = MemStream::new();
    assert_eq!(
        encode_then_decode(&None::<u64>, &mut s).unwrap(),
        None::<u64>
    );
    assert_eq!(
        encode_then_decode(&Some(7u64), &mut s).unwrap(),
        Some(7u64)
    );
    assert_eq!(
        encode_then_decode(&Some("abc".to_string()), &mut s).unwrap(),
        Some("abc".to_string())
    );
    assert_eq!(
        encode_then_decode(&Some(None::<bool>), &mut s).unwrap(),
        Some(None::<bool>)
    );
}

#[test]
fn round_trip_result() {
    let mut s = MemStream::new();
    let ok: Result<u64, RPCError> = Ok(1234);
    assert_eq!(encode_then_decode(&ok, &mut s).unwrap(), Ok(1234));
    let errs = [
        RPCError::NotAvailable,
        RPCError::SerializationError,
        RPCError::StreamClosed,
        RPCError::UnknownError,
    ];
    for e in errs {
        let r: Result<u64, RPCError> = Err(e);
        assert_eq!(encode_then_decode(&r, &mut s).unwrap(), Err(e));
    }
    let nested: Result<Option<String>, RPCError> = Ok(Some("x".to_string()));
    assert_eq!(
        encode_then_decode(&nested, &mut s).unwrap(),
        Ok(Some("x".to_string()))
    );
}

#[test]
fn truncated_fixed_width_fails_with_stream_closed() {
    let mut s = MemStream::from_bytes(vec![1, 2, 3]);
    assert_eq!(u64::decode_stream(&mut s), Err(RPCError::StreamClosed));
    let mut s = MemStream::from_bytes(vec![1]);
    assert_eq!(u16::decode_stream(&mut s), Err(RPCError::StreamClosed));
    let mut s = MemStream::from_bytes(vec![]);
    assert_eq!(u8::decode_stream(&mut s), Err(RPCError::StreamClosed));
    let mut s = MemStream::from_bytes(vec![]);
    assert_eq!(bool::decode_stream(&mut s), Err(RPCError::StreamClosed));
}

#[test]
fn truncated_string_fails_with_stream_closed() {
    // length prefix says five bytes, only two follow
    let mut s = MemStream::from_bytes(vec![0, 0, 0, 0, 0, 0, 0, 5, b'a', b'b']);
    assert_eq!(String::decode_stream(&mut s), Err(RPCError::StreamClosed));
    // not even the length prefix is complete
    let mut s = MemStream::from_bytes(vec![0, 0, 0]);
    assert_eq!(String::decode_stream(&mut s), Err(RPCError::StreamClosed));
}

#[test]
fn truncated_containers_fail_with_stream_closed() {
    // present discriminant, no payload
    let mut s = MemStream::from_bytes(vec![1]);
    assert_eq!(
        Option::<u64>::decode_stream(&mut s),
        Err(RPCError::StreamClosed)
    );
    // success discriminant, half a payload
    let mut s = MemStream::from_bytes(vec![0, 9, 9]);
    assert_eq!(
        Result::<u64, RPCError>::decode_stream(&mut s),
        Err(RPCError::StreamClosed)
    );
    // failure discriminant, missing error byte
    let mut s = MemStream::from_bytes(vec![1]);
    assert_eq!(
        Result::<u64, RPCError>::decode_stream(&mut s),
        Err(RPCError::StreamClosed)
    );
}

#[test]
fn bool_reads_any_nonzero_as_true() {
    let mut s = MemStream::from_bytes(vec![2]);
    assert_eq!(bool::decode_stream(&mut s), Ok(true));
    let mut s = MemStream::from_bytes(vec![0]);
    assert_eq!(bool::decode_stream(&mut s), Ok(false));
}

#[test]
fn bad_discriminants_fail_with_serialization_error() {
    let mut s = MemStream::from_bytes(vec![7, 0]);
    assert_eq!(
        Option::<u8>::decode_stream(&mut s),
        Err(RPCError::SerializationError)
    );
    let mut s = MemStream::from_bytes(vec![9, 0]);
    assert_eq!(
        Result::<u8, RPCError>::decode_stream(&mut s),
        Err(RPCError::SerializationError)
    );
    let mut s = MemStream::from_bytes(vec![4]);
    assert_eq!(
        RPCError::decode_stream(&mut s),
        Err(RPCError::SerializationError)
    );
    let mut s = MemStream::from_bytes(vec![]);
    assert_eq!(RPCError::decode_stream(&mut s), Err(RPCError::StreamClosed));
}

#[test]
fn invalid_utf8_fails_with_serialization_error() {
    let mut s = MemStream::from_bytes(vec![0, 0, 0, 0, 0, 0, 0, 1, 0xff]);
    assert_eq!(
        String::decode_stream(&mut s),
        Err(RPCError::SerializationError)
    );
}

#[test]
fn unit_consumes_nothing() {
    let mut s = MemStream::from_bytes(vec![]);
    assert_eq!(<()>::decode_stream(&mut s), Ok(()));
    let mut s = MemStream::from_bytes(vec![42]);
    assert_eq!(<()>::decode_stream(&mut s), Ok(()));
    assert_eq!(s.position(), 0);
}

#[test]
fn integers_travel_big_endian() {
    let mut s = MemStream::new();
    0x0102030405060708u64.encode_stream(&mut s).unwrap();
    assert_eq!(s.as_bytes().as_slice(), &[1, 2, 3, 4, 5, 6, 7, 8]);
    let mut s = MemStream::new();
    0x0102u16.encode_stream(&mut s).unwrap();
    assert_eq!(s.as_bytes().as_slice(), &[1, 2]);
    let mut s = MemStream::new();
    (-1i32).encode_stream(&mut s).unwrap();
    assert_eq!(s.as_bytes().as_slice(), &[0xff, 0xff, 0xff, 0xff]);
}

#[test]
fn strings_carry_a_byte_length_prefix() {
    let mut s = MemStream::new();
    "ab".to_string().encode_stream(&mut s).unwrap();
    assert_eq!(
        s.as_bytes().as_slice(),
        &[0, 0, 0, 0, 0, 0, 0, 2, b'a', b'b']
    );
}

#[test]
fn fill_buf_reads_exactly_or_fails() {
    let mut s = MemStream::from_bytes(vec![10, 20, 30]);
    assert_eq!(fill_buf(&mut s, 2).unwrap(), vec![10, 20]);
    assert_eq!(fill_buf(&mut s, 2), Err(RPCError::StreamClosed));
    assert_eq!(fill_buf(&mut s, 1).unwrap(), vec![30]);
}

#[test]
fn write_buf_appends() {
    let mut s = MemStream::new();
    write_buf(&mut s, &[1, 2]).unwrap();
    write_buf(&mut s, &[3]).unwrap();
    assert_eq!(s.as_bytes().as_slice(), &[1, 2, 3]);
}
