use rocksdict::error::StoreError;
use rocksdict::key_codec::{
    decode_key, encode_key, float_to_key_word, key_word_to_float, key_word_to_signed,
    signed_to_key_word,
};
use rocksdict::order::compare_bytes;
use rocksdict::value::{Kind, TypedValue};
use rocksdict::value_codec::{decode_value, encode_value};

fn key(v: TypedValue) -> Vec<u8> {
    encode_key(&v).unwrap()
}

fn float(x: f64) -> TypedValue {
    TypedValue::Float(x.to_bits())
}

fn sign_of(o: std::cmp::Ordering) -> i8 {
    match o {
        std::cmp::Ordering::Less => -1,
        std::cmp::Ordering::Equal => 0,
        std::cmp::Ordering::Greater => 1,
    }
}

#[test]
fn unsigned_keys_are_big_endian() {
    assert_eq!(key(TypedValue::Unsigned(1)), vec![0, 0, 0, 0, 0, 0, 0, 1]);
    assert_eq!(
        key(TypedValue::Unsigned(0x0102_0304_0506_0708)),
        vec![1, 2, 3, 4, 5, 6, 7, 8]
    );
    assert_eq!(key(TypedValue::Unsigned(u64::MAX)), vec![0xff; 8]);
}

#[test]
fn signed_keys_flip_the_sign_bit() {
    assert_eq!(key(TypedValue::Signed(0)), vec![0x80, 0, 0, 0, 0, 0, 0, 0]);
    assert_eq!(
        key(TypedValue::Signed(-1)),
        vec![0x7f, 0xff, 0xff, 0xff, 0xff, 0xff, 0xff, 0xff]
    );
    assert_eq!(key(TypedValue::Signed(i64::MIN)), vec![0; 8]);
    assert_eq!(key(TypedValue::Signed(i64::MAX)), vec![0xff; 8]);
    assert_eq!(signed_to_key_word(5), 0x8000_0000_0000_0005);
}

#[test]
fn float_keys_follow_the_transform() {
    assert_eq!(float_to_key_word(1.0f64.to_bits()), 0xbff0_0000_0000_0000);
    assert_eq!(float_to_key_word((-1.0f64).to_bits()), 0x400f_ffff_ffff_ffff);
    assert_eq!(float_to_key_word(0.0f64.to_bits()), 0x8000_0000_0000_0000);
    assert_eq!(float_to_key_word((-0.0f64).to_bits()), 0x7fff_ffff_ffff_ffff);
    assert_eq!(
        key(float(1.0)),
        vec![0xbf, 0xf0, 0, 0, 0, 0, 0, 0]
    );
}

#[test]
fn the_keys_of_the_two_zeros_are_neighbours() {
    let neg = float_to_key_word((-0.0f64).to_bits());
    let pos = float_to_key_word(0.0f64.to_bits());
    assert_eq!(neg + 1, pos);
}

#[test]
fn bool_text_and_bytes_keys() {
    assert_eq!(key(TypedValue::Bool(false)), vec![0]);
    assert_eq!(key(TypedValue::Bool(true)), vec![1]);
    assert_eq!(key(TypedValue::Text("hello".to_string())), b"hello".to_vec());
    assert_eq!(key(TypedValue::Text("é".to_string())), vec![0xc3, 0xa9]);
    assert_eq!(key(TypedValue::Bytes(vec![0x00, 0xff])), vec![0x00, 0xff]);
    assert_eq!(key(TypedValue::Bytes(vec![])), Vec::<u8>::new());
}

#[test]
fn an_opaque_value_is_no_key() {
    assert_eq!(
        encode_key(&TypedValue::Opaque(vec![1, 2, 3])),
        Err(StoreError::UnsupportedKeyType)
    );
}

#[test]
fn signed_keys_order_example() {
    let a = key(TypedValue::Signed(-5));
    let b = key(TypedValue::Signed(0));
    let c = key(TypedValue::Signed(5));
    assert!(a < b && b < c);
    assert_eq!(compare_bytes(&a, &b), -1);
    assert_eq!(compare_bytes(&c, &b), 1);
    assert_eq!(compare_bytes(&b, &b), 0);
}

#[test]
fn float_keys_order_example() {
    let a = key(float(-1.5));
    let b = key(float(-0.5));
    let c = key(float(0.0));
    let d = key(float(0.5));
    assert!(a < b && b < c && c < d);
}

#[test]
fn unsigned_keys_keep_order() {
    let xs: Vec<u64> = vec![0, 1, 2, 255, 256, 257, 65535, 65536, 1 << 32, (1 << 56) - 1, 1 << 56, u64::MAX - 1, u64::MAX];
    for &x in &xs {
        for &y in &xs {
            let kx = key(TypedValue::Unsigned(x));
            let ky = key(TypedValue::Unsigned(y));
            assert_eq!(compare_bytes(&kx, &ky), sign_of(x.cmp(&y)));
            assert_eq!(sign_of(kx.cmp(&ky)), sign_of(x.cmp(&y)));
        }
    }
}

#[test]
fn signed_keys_keep_order() {
    let xs: Vec<i64> = vec![i64::MIN, i64::MIN + 1, -65536, -257, -256, -255, -2, -1, 0, 1, 2, 255, 256, 1 << 40, i64::MAX - 1, i64::MAX];
    for &x in &xs {
        for &y in &xs {
            let kx = key(TypedValue::Signed(x));
            let ky = key(TypedValue::Signed(y));
            assert_eq!(compare_bytes(&kx, &ky), sign_of(x.cmp(&y)));
        }
    }
}

#[test]
fn float_keys_keep_order() {
    let xs: Vec<f64> = vec![
        f64::NEG_INFINITY, f64::MIN, -1.0e100, -3.14, -1.5, -1.0, -0.5, -f64::MIN_POSITIVE, -5e-324,
        0.0, 5e-324, f64::MIN_POSITIVE, 0.5, 1.0, 1.5, 3.14, 1.0e100, f64::MAX, f64::INFINITY,
    ];
    for &x in &xs {
        for &y in &xs {
            let kx = key(float(x));
            let ky = key(float(y));
            assert_eq!(compare_bytes(&kx, &ky), sign_of(x.partial_cmp(&y).unwrap()));
        }
    }
}

#[test]
fn text_keys_keep_code_point_order() {
    let xs: Vec<&str> = vec!["", "a", "ab", "b", "z", "é", "ée", "中", "中文", "\u{ffff}", "\u{10000}", "\u{10ffff}"];
    for &x in &xs {
        for &y in &xs {
            let kx = key(TypedValue::Text(x.to_string()));
            let ky = key(TypedValue::Text(y.to_string()));
            let by_code_point = x.chars().cmp(y.chars());
            assert_eq!(compare_bytes(&kx, &ky), sign_of(by_code_point));
        }
    }
}

#[test]
fn bool_keys_keep_order() {
    let f = key(TypedValue::Bool(false));
    let t = key(TypedValue::Bool(true));
    assert_eq!(compare_bytes(&f, &t), -1);
    assert_eq!(compare_bytes(&t, &f), 1);
    assert_eq!(compare_bytes(&t, &t), 0);
}

#[test]
fn compare_bytes_is_lexicographic() {
    assert_eq!(compare_bytes(&[], &[]), 0);
    assert_eq!(compare_bytes(&[], &[0]), -1);
    assert_eq!(compare_bytes(&[0], &[]), 1);
    assert_eq!(compare_bytes(&[1, 2], &[1, 2, 0]), -1);
    assert_eq!(compare_bytes(&[1, 3], &[1, 2, 9]), 1);
    assert_eq!(compare_bytes(&[0x7f], &[0x80]), -1);
    assert_eq!(compare_bytes(&[0xff], &[0x00, 0xff]), 1);
}

#[test]
fn encoded_values_start_with_their_tag() {
    assert_eq!(
        encode_value(&TypedValue::Unsigned(42)),
        vec![1, 0, 0, 0, 0, 0, 0, 0, 42]
    );
    assert_eq!(
        encode_value(&TypedValue::Signed(-7)),
        vec![2, 0xff, 0xff, 0xff, 0xff, 0xff, 0xff, 0xff, 0xf9]
    );
    assert_eq!(
        encode_value(&float(1.0)),
        vec![3, 0x3f, 0xf0, 0, 0, 0, 0, 0, 0]
    );
    assert_eq!(encode_value(&TypedValue::Bool(true)), vec![4, 1]);
    assert_eq!(encode_value(&TypedValue::Bool(false)), vec![4, 0]);
    assert_eq!(encode_value(&TypedValue::Text("hi".to_string())), vec![5, b'h', b'i']);
    assert_eq!(encode_value(&TypedValue::Bytes(vec![0x00, 0xff])), vec![6, 0x00, 0xff]);
    assert_eq!(encode_value(&TypedValue::Opaque(vec![9, 8])), vec![7, 9, 8]);
}

#[test]
fn values_round_trip() {
    let values = vec![
        TypedValue::Unsigned(42),
        TypedValue::Unsigned(0),
        TypedValue::Unsigned(u64::MAX),
        TypedValue::Signed(-7),
        TypedValue::Signed(i64::MIN),
        TypedValue::Signed(i64::MAX),
        float(3.14),
        float(-0.0),
        float(f64::INFINITY),
        TypedValue::Float(f64::NAN.to_bits()),
        TypedValue::Bool(true),
        TypedValue::Bool(false),
        TypedValue::Text("hello".to_string()),
        TypedValue::Text(String::new()),
        TypedValue::Text("中文 é \u{10ffff}".to_string()),
        TypedValue::Bytes(vec![0x00, 0xff]),
        TypedValue::Bytes(vec![]),
        TypedValue::Opaque(vec![0x80, 0x04, 0x95]),
    ];
    for v in values {
        assert_eq!(decode_value(&encode_value(&v)), Ok(v));
    }
}

#[test]
fn float_round_trip_keeps_the_number() {
    let back = decode_value(&encode_value(&float(3.14))).unwrap();
    match back {
        TypedValue::Float(bits) => assert_eq!(f64::from_bits(bits), 3.14),
        _ => panic!("a float came back as another kind"),
    }
}

#[test]
fn decoded_bytes_encode_to_themselves() {
    let samples: Vec<Vec<u8>> = vec![
        vec![1, 1, 2, 3, 4, 5, 6, 7, 8],
        vec![2, 0x80, 0, 0, 0, 0, 0, 0, 0],
        vec![3, 0x7f, 0xf8, 0, 0, 0, 0, 0, 1],
        vec![4, 0],
        vec![5, 0xe4, 0xb8, 0xad],
        vec![6],
        vec![7, 1, 2, 3],
    ];
    for bytes in samples {
        let v = decode_value(&bytes).unwrap();
        assert_eq!(encode_value(&v), bytes);
    }
}

#[test]
fn decoding_gives_the_kind_of_the_tag() {
    assert_eq!(decode_value(&[1, 0, 0, 0, 0, 0, 0, 0, 5]).unwrap().kind(), Kind::Unsigned);
    assert_eq!(decode_value(&[2, 0, 0, 0, 0, 0, 0, 0, 5]).unwrap().kind(), Kind::Signed);
    assert_eq!(decode_value(&[3, 0, 0, 0, 0, 0, 0, 0, 5]).unwrap().kind(), Kind::Float);
    assert_eq!(decode_value(&[4, 1]).unwrap().kind(), Kind::Bool);
    assert_eq!(decode_value(&[5, b'a']).unwrap().kind(), Kind::Text);
    assert_eq!(decode_value(&[6, b'a']).unwrap().kind(), Kind::Bytes);
    assert_eq!(decode_value(&[7, b'a']).unwrap().kind(), Kind::Opaque);
    assert_eq!(
        decode_value(&[2, 0xff, 0xff, 0xff, 0xff, 0xff, 0xff, 0xff, 0xf9]),
        Ok(TypedValue::Signed(-7))
    );
}

#[test]
fn unknown_tags_are_corrupt() {
    assert_eq!(decode_value(&[]), Err(StoreError::CorruptEncoding));
    assert_eq!(decode_value(&[0]), Err(StoreError::CorruptEncoding));
    assert_eq!(decode_value(&[8, 1, 2]), Err(StoreError::CorruptEncoding));
    assert_eq!(decode_value(&[0xff, 0, 0, 0, 0, 0, 0, 0, 0]), Err(StoreError::CorruptEncoding));
}

#[test]
fn truncated_encodings_are_corrupt() {
    for v in [TypedValue::Unsigned(42), TypedValue::Signed(-7), float(3.14), TypedValue::Bool(true)] {
        let full = encode_value(&v);
        for n in 0..full.len() {
            assert_eq!(decode_value(&full[..n]), Err(StoreError::CorruptEncoding));
        }
    }
}

#[test]
fn overlong_payloads_are_corrupt() {
    assert_eq!(decode_value(&[1, 0, 0, 0, 0, 0, 0, 0, 0, 0]), Err(StoreError::CorruptEncoding));
    assert_eq!(decode_value(&[4, 1, 0]), Err(StoreError::CorruptEncoding));
    assert_eq!(decode_value(&[4, 2]), Err(StoreError::CorruptEncoding));
}

#[test]
fn text_payload_must_be_utf8() {
    assert_eq!(decode_value(&[5, 0xff]), Err(StoreError::CorruptEncoding));
    assert_eq!(decode_value(&[5, 0xc3]), Err(StoreError::CorruptEncoding));
    assert_eq!(decode_value(&[5, 0xed, 0xa0, 0x80]), Err(StoreError::CorruptEncoding));
    assert_eq!(decode_value(&[5, 0xc3, 0xa9]), Ok(TypedValue::Text("é".to_string())));
    assert_eq!(decode_value(&[5]), Ok(TypedValue::Text(String::new())));
}

#[test]
fn a_changed_tag_never_keeps_the_value() {
    let original = TypedValue::Unsigned(42);
    let bytes = encode_value(&original);
    for tag in 0..=255u8 {
        if tag == bytes[0] {
            continue;
        }
        let mut changed = bytes.clone();
        changed[0] = tag;
        match decode_value(&changed) {
            Err(e) => assert_eq!(e, StoreError::CorruptEncoding),
            Ok(v) => {
                assert_ne!(v, original);
                assert_eq!(encode_value(&v), changed);
            }
        }
    }
}

#[test]
fn keys_read_back_as_the_values_they_were_made_from() {
    let values = vec![
        TypedValue::Unsigned(0),
        TypedValue::Unsigned(42),
        TypedValue::Unsigned(u64::MAX),
        TypedValue::Signed(i64::MIN),
        TypedValue::Signed(-7),
        TypedValue::Signed(0),
        TypedValue::Signed(i64::MAX),
        float(-1.5),
        float(-0.0),
        float(0.0),
        float(3.14),
        float(f64::NEG_INFINITY),
        TypedValue::Bool(false),
        TypedValue::Bool(true),
        TypedValue::Text("hello".to_string()),
        TypedValue::Text("中文".to_string()),
        TypedValue::Bytes(vec![0x00, 0xff]),
    ];
    for v in values {
        assert_eq!(decode_key(v.kind(), &key(v.clone())), Ok(v));
    }
    assert_eq!(key_word_to_signed(0x7fff_ffff_ffff_ffff), -1);
    assert_eq!(key_word_to_signed(0x8000_0000_0000_0005), 5);
    assert_eq!(key_word_to_float(0xbff0_0000_0000_0000), 1.0f64.to_bits());
    assert_eq!(key_word_to_float(0x400f_ffff_ffff_ffff), (-1.0f64).to_bits());
}

#[test]
fn keys_of_the_wrong_shape_are_corrupt() {
    assert_eq!(decode_key(Kind::Unsigned, &[0; 7]), Err(StoreError::CorruptEncoding));
    assert_eq!(decode_key(Kind::Signed, &[0; 9]), Err(StoreError::CorruptEncoding));
    assert_eq!(decode_key(Kind::Float, &[]), Err(StoreError::CorruptEncoding));
    assert_eq!(decode_key(Kind::Bool, &[2]), Err(StoreError::CorruptEncoding));
    assert_eq!(decode_key(Kind::Bool, &[0, 0]), Err(StoreError::CorruptEncoding));
    assert_eq!(decode_key(Kind::Text, &[0xff]), Err(StoreError::CorruptEncoding));
    assert_eq!(decode_key(Kind::Opaque, &[1]), Err(StoreError::UnsupportedKeyType));
    assert_eq!(decode_key(Kind::Bytes, &[]), Ok(TypedValue::Bytes(vec![])));
    assert_eq!(decode_key(Kind::Text, &[b'a']), Ok(TypedValue::Text("a".to_string())));
}
