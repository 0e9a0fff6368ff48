use coset::iana;
use coset::{
    CoseError, CoseKey, CoseKeyBuilder, CoseKeySet, KeyOperation, KeyType, Label, RegisteredLabel,
    Shape, SimpleValue, Value,
};

fn uint(u: u64) -> Value {
    Value::Unsigned(u)
}

fn nint(i: i64) -> Value {
    Value::from_i64(i)
}

fn bstr(b: &[u8]) -> Value {
    Value::ByteString(b.to_vec())
}

fn map(entries: Vec<(Value, Value)>) -> Value {
    Value::Mapping(entries)
}

fn entries(v: Value) -> Vec<(Value, Value)> {
    match v {
        Value::Mapping(m) => m,
        _ => panic!("not a map"),
    }
}

#[test]
fn decode_ec2_public_key() {
    let x = vec![1u8, 2, 3];
    let y = vec![4u8, 5, 6];
    let v = map(vec![
        (uint(1), uint(2)),
        (nint(-1), uint(1)),
        (nint(-2), bstr(&x)),
        (nint(-3), bstr(&y)),
    ]);
    let key = CoseKey::from_cbor_value(v).unwrap();
    assert_eq!(key.kty, KeyType::Assigned(iana::KeyType::EC2));
    assert!(key.key_id.is_empty());
    assert_eq!(key.alg, None);
    assert!(key.key_ops.is_empty());
    assert_eq!(
        key.params,
        vec![
            (Label::Int(-1), uint(1)),
            (Label::Int(-2), bstr(&x)),
            (Label::Int(-3), bstr(&y)),
        ]
    );
    let m = entries(key.to_cbor_value().unwrap());
    assert_eq!(
        m,
        vec![
            (uint(1), uint(2)),
            (nint(-1), uint(1)),
            (nint(-2), bstr(&x)),
            (nint(-3), bstr(&y)),
        ]
    );
}

#[test]
fn decode_empty_key_id_fails() {
    let v = map(vec![(uint(2), bstr(&[])), (uint(1), uint(4))]);
    assert_eq!(CoseKey::from_cbor_value(v), Err(CoseError::EmptyByteString));
}

#[test]
fn decode_empty_base_iv_fails() {
    let v = map(vec![(uint(1), uint(4)), (uint(5), bstr(&[]))]);
    assert_eq!(CoseKey::from_cbor_value(v), Err(CoseError::EmptyByteString));
}

#[test]
fn decode_empty_key_ops_fails() {
    let v = map(vec![(uint(1), uint(4)), (uint(4), Value::Array(vec![]))]);
    assert_eq!(CoseKey::from_cbor_value(v), Err(CoseError::EmptyArray));
}

#[test]
fn decode_repeated_key_op_fails() {
    let v = map(vec![
        (uint(1), uint(4)),
        (uint(4), Value::Array(vec![uint(9), uint(10), uint(9)])),
    ]);
    assert_eq!(CoseKey::from_cbor_value(v), Err(CoseError::RepeatedArrayEntry));
}

#[test]
fn decode_repeated_text_key_op_fails() {
    let v = map(vec![
        (uint(1), uint(4)),
        (
            uint(4),
            Value::Array(vec![
                Value::TextString("own".to_string()),
                Value::TextString("own".to_string()),
            ]),
        ),
    ]);
    assert_eq!(CoseKey::from_cbor_value(v), Err(CoseError::RepeatedArrayEntry));
}

#[test]
fn decode_missing_kty_fails() {
    let v = map(vec![(uint(2), bstr(&[1])), (nint(-1), uint(1))]);
    assert_eq!(CoseKey::from_cbor_value(v), Err(CoseError::MissingKeyType));
    assert_eq!(CoseKey::from_cbor_value(map(vec![])), Err(CoseError::MissingKeyType));
}

#[test]
fn decode_reserved_kty_fails() {
    let v = map(vec![(uint(1), uint(0))]);
    assert_eq!(CoseKey::from_cbor_value(v), Err(CoseError::MissingKeyType));
}

#[test]
fn decode_not_a_map_fails() {
    assert_eq!(
        CoseKey::from_cbor_value(Value::Array(vec![])),
        Err(CoseError::UnexpectedType(Shape::Array, Shape::Mapping))
    );
}

#[test]
fn decode_wrong_field_shapes_fail() {
    let v = map(vec![(uint(1), uint(4)), (uint(2), uint(7))]);
    assert_eq!(
        CoseKey::from_cbor_value(v),
        Err(CoseError::UnexpectedType(Shape::Unsigned, Shape::ByteString))
    );
    let v = map(vec![(uint(1), uint(4)), (uint(4), uint(7))]);
    assert_eq!(
        CoseKey::from_cbor_value(v),
        Err(CoseError::UnexpectedType(Shape::Unsigned, Shape::Array))
    );
    let v = map(vec![(uint(1), bstr(&[1]))]);
    assert_eq!(
        CoseKey::from_cbor_value(v),
        Err(CoseError::UnexpectedType(Shape::ByteString, Shape::IntOrText))
    );
    let v = map(vec![(uint(1), uint(4)), (Value::Simple(SimpleValue::NullValue), uint(0))]);
    assert_eq!(
        CoseKey::from_cbor_value(v),
        Err(CoseError::UnexpectedType(Shape::Simple, Shape::IntOrText))
    );
}

#[test]
fn decode_out_of_range_label_fails() {
    let v = map(vec![(uint(1), uint(4)), (uint(u64::MAX), uint(0))]);
    assert_eq!(CoseKey::from_cbor_value(v), Err(CoseError::OutOfRangeInteger));
    let v = map(vec![(uint(1), uint(4)), (Value::Negative(u64::MAX), uint(0))]);
    assert_eq!(CoseKey::from_cbor_value(v), Err(CoseError::OutOfRangeInteger));
}

#[test]
fn decode_unassigned_kty_is_kept() {
    let v = map(vec![(uint(1), uint(99))]);
    let key = CoseKey::from_cbor_value(v).unwrap();
    assert_eq!(key.kty, KeyType::Int(99));
    let m = entries(key.to_cbor_value().unwrap());
    assert_eq!(m, vec![(uint(1), uint(99))]);

    let v = map(vec![(uint(1), nint(-70000))]);
    let key = CoseKey::from_cbor_value(v).unwrap();
    assert_eq!(key.kty, KeyType::Int(-70000));
    let m = entries(key.to_cbor_value().unwrap());
    assert_eq!(m, vec![(uint(1), nint(-70000))]);

    let v = map(vec![(uint(1), Value::TextString("custom".to_string()))]);
    let key = CoseKey::from_cbor_value(v).unwrap();
    assert_eq!(key.kty, KeyType::Text("custom".to_string()));
}

#[test]
fn decode_all_fixed_fields() {
    let v = map(vec![
        (Value::TextString("ext".to_string()), uint(3)),
        (uint(5), bstr(&[9, 9])),
        (uint(4), Value::Array(vec![uint(2), Value::TextString("x".to_string()), nint(-100)])),
        (uint(3), nint(-7)),
        (uint(2), bstr(&[1, 2])),
        (uint(1), uint(1)),
    ]);
    let key = CoseKey::from_cbor_value(v).unwrap();
    assert_eq!(key.kty, KeyType::Assigned(iana::KeyType::OKP));
    assert_eq!(key.key_id, vec![1, 2]);
    assert_eq!(key.alg, Some(RegisteredLabel::Assigned(iana::Algorithm::ES256)));
    assert_eq!(
        key.key_ops,
        vec![
            KeyOperation::Assigned(iana::KeyOperation::Verify),
            KeyOperation::Text("x".to_string()),
            KeyOperation::Int(-100),
        ]
    );
    assert_eq!(key.base_iv, vec![9, 9]);
    assert_eq!(key.params, vec![(Label::Text("ext".to_string()), uint(3))]);
    let m = entries(key.to_cbor_value().unwrap());
    assert_eq!(
        m,
        vec![
            (uint(1), uint(1)),
            (uint(2), bstr(&[1, 2])),
            (uint(3), nint(-7)),
            (uint(4), Value::Array(vec![uint(2), Value::TextString("x".to_string()), nint(-100)])),
            (uint(5), bstr(&[9, 9])),
            (Value::TextString("ext".to_string()), uint(3)),
        ]
    );
}

#[test]
fn encode_keeps_parameter_order() {
    let key = CoseKeyBuilder::new_symmetric_key(vec![7])
        .param(-70000, uint(1))
        .param(10, uint(2))
        .key_id(vec![3])
        .build();
    let m = entries(key.to_cbor_value().unwrap());
    assert_eq!(
        m,
        vec![
            (uint(1), uint(4)),
            (uint(2), bstr(&[3])),
            (nint(-1), bstr(&[7])),
            (nint(-70000), uint(1)),
            (uint(10), uint(2)),
        ]
    );
}

#[test]
fn symmetric_key_round_trip() {
    let k = vec![0x11u8, 0x22, 0x33];
    let built = CoseKeyBuilder::new_symmetric_key(k.clone()).build();
    assert_eq!(built.kty, KeyType::Assigned(iana::KeyType::Symmetric));
    assert_eq!(built.params, vec![(Label::Int(-1), bstr(&k))]);
    let v = CoseKeyBuilder::new_symmetric_key(k.clone()).build().to_cbor_value().unwrap();
    let decoded = CoseKey::from_cbor_value(v).unwrap();
    assert_eq!(decoded, built);
}

#[test]
fn builder_round_trip() {
    let make = || {
        CoseKeyBuilder::new_ec2_priv_key(iana::EllipticCurve::P_384, vec![1], vec![2], vec![3])
            .algorithm(iana::Algorithm::ES384)
            .add_key_op(iana::KeyOperation::Sign)
            .add_key_op(iana::KeyOperation::Verify)
            .add_key_op(iana::KeyOperation::Sign)
            .key_id(vec![5, 5])
            .base_iv(vec![6])
            .param(-70000, Value::Simple(SimpleValue::NullValue))
            .build()
    };
    let built = make();
    assert_eq!(
        built.key_ops,
        vec![
            KeyOperation::Assigned(iana::KeyOperation::Sign),
            KeyOperation::Assigned(iana::KeyOperation::Verify),
        ]
    );
    let decoded = CoseKey::from_cbor_value(make().to_cbor_value().unwrap()).unwrap();
    assert_eq!(decoded, built);
}

#[test]
fn builder_ec2_keys() {
    let key = CoseKeyBuilder::new_ec2_pub_key(iana::EllipticCurve::P_256, vec![1], vec![2]).build();
    assert_eq!(key.kty, KeyType::Assigned(iana::KeyType::EC2));
    assert_eq!(
        key.params,
        vec![
            (Label::Int(-1), uint(1)),
            (Label::Int(-2), bstr(&[1])),
            (Label::Int(-3), bstr(&[2])),
        ]
    );
    let key = CoseKeyBuilder::new_ec2_pub_key_y_sign(iana::EllipticCurve::Ed448, vec![1], true).build();
    assert_eq!(
        key.params,
        vec![
            (Label::Int(-1), uint(7)),
            (Label::Int(-2), bstr(&[1])),
            (Label::Int(-3), Value::Simple(SimpleValue::TrueValue)),
        ]
    );
    let key = CoseKeyBuilder::new_ec2_pub_key_y_sign(iana::EllipticCurve::P_521, vec![1], false).build();
    assert_eq!(key.params[2], (Label::Int(-3), Value::Simple(SimpleValue::FalseValue)));
    let key = CoseKeyBuilder::new_ec2_priv_key(iana::EllipticCurve::P_256, vec![1], vec![2], vec![3]).build();
    assert_eq!(key.params.len(), 4);
    assert_eq!(key.params[3], (Label::Int(-4), bstr(&[3])));
}

#[test]
fn builder_empty_key_id_is_omitted() {
    let key = CoseKeyBuilder::new_symmetric_key(vec![1]).key_id(vec![]).base_iv(vec![]).build();
    let m = entries(key.to_cbor_value().unwrap());
    assert_eq!(m, vec![(uint(1), uint(4)), (nint(-1), bstr(&[1]))]);
}

#[test]
fn builder_new_is_empty() {
    let key = CoseKeyBuilder::new().build();
    assert_eq!(key.kty, KeyType::Assigned(iana::KeyType::Reserved));
    assert!(key.params.is_empty());
    assert_eq!(key, CoseKey::default());
}

#[test]
fn key_set_round_trip() {
    let make = || {
        CoseKeySet(vec![
            CoseKeyBuilder::new_symmetric_key(vec![1]).build(),
            CoseKeyBuilder::new_ec2_pub_key(iana::EllipticCurve::P_256, vec![2], vec![3]).build(),
        ])
    };
    let v = make().to_cbor_value().unwrap();
    match &v {
        Value::Array(a) => assert_eq!(a.len(), 2),
        _ => panic!("not an array"),
    }
    assert_eq!(CoseKeySet::from_cbor_value(v), Ok(make()));
}

#[test]
fn key_set_decode_errors() {
    assert_eq!(
        CoseKeySet::from_cbor_value(map(vec![])),
        Err(CoseError::UnexpectedType(Shape::Mapping, Shape::Array))
    );
    let v = Value::Array(vec![
        map(vec![(uint(1), uint(4))]),
        map(vec![(uint(2), bstr(&[1]))]),
        uint(3),
    ]);
    assert_eq!(CoseKeySet::from_cbor_value(v), Err(CoseError::MissingKeyType));
    assert_eq!(CoseKeySet::from_cbor_value(Value::Array(vec![])), Ok(CoseKeySet(vec![])));
}

#[test]
fn label_codec() {
    assert_eq!(Label::from_cbor_value(nint(-5)), Ok(Label::Int(-5)));
    assert_eq!(Label::from_cbor_value(uint(i64::MAX as u64)), Ok(Label::Int(i64::MAX)));
    assert_eq!(Label::from_cbor_value(Value::Negative(i64::MAX as u64)), Ok(Label::Int(i64::MIN)));
    assert_eq!(Label::Int(i64::MIN).to_cbor_value(), Ok(Value::Negative(i64::MAX as u64)));
    assert_eq!(Label::Int(-1).to_cbor_value(), Ok(Value::Negative(0)));
    assert_eq!(Label::Text("a".to_string()).to_cbor_value(), Ok(Value::TextString("a".to_string())));
    assert_eq!(
        RegisteredLabel::<iana::Algorithm>::from_cbor_value(nint(-7)),
        Ok(RegisteredLabel::Assigned(iana::Algorithm::ES256))
    );
    assert_eq!(
        RegisteredLabel::Assigned(iana::Algorithm::RS1).to_cbor_value(),
        Ok(Value::Negative(65534))
    );
    assert_eq!(KeyType::default(), KeyType::Assigned(iana::KeyType::Reserved));
}

#[test]
fn fields_compare_by_wire_value() {
    assert_eq!(KeyType::Int(2), KeyType::Assigned(iana::KeyType::EC2));
    assert_ne!(KeyType::Int(3), KeyType::Assigned(iana::KeyType::EC2));
    assert_ne!(KeyType::Text("2".to_string()), KeyType::Int(2));
    assert_eq!(KeyType::Text("a".to_string()), KeyType::Text("a".to_string()));
    assert!(KeyOperation::Int(1).same_wire_value(&KeyOperation::Assigned(iana::KeyOperation::Sign)));
}

#[test]
fn decode_key_ops_across_entries() {
    // A second operations entry adds to the first, and a repeat across the
    // two entries is refused.
    let v = map(vec![
        (uint(1), uint(4)),
        (uint(4), Value::Array(vec![uint(1)])),
        (uint(4), Value::Array(vec![uint(2)])),
    ]);
    let key = CoseKey::from_cbor_value(v).unwrap();
    assert_eq!(
        key.key_ops,
        vec![
            KeyOperation::Assigned(iana::KeyOperation::Sign),
            KeyOperation::Assigned(iana::KeyOperation::Verify),
        ]
    );
    let v = map(vec![
        (uint(1), uint(4)),
        (uint(4), Value::Array(vec![uint(1)])),
        (uint(4), Value::Array(vec![uint(1)])),
    ]);
    assert_eq!(CoseKey::from_cbor_value(v), Err(CoseError::RepeatedArrayEntry));
}

#[test]
fn builder_default_matches_new() {
    assert_eq!(CoseKeyBuilder::default().build(), CoseKeyBuilder::new().build());
}

#[test]
fn key_set_default_is_empty() {
    let set = CoseKeySet::default();
    assert!(set.0.is_empty());
    assert_eq!(set.to_cbor_value(), Ok(Value::Array(vec![])));
}

#[test]
fn value_helpers() {
    assert_eq!(Value::from_i64(0), Value::Unsigned(0));
    assert_eq!(Value::from_i64(-1), Value::Negative(0));
    assert_eq!(Value::from_i64(i64::MIN), Value::Negative(i64::MAX as u64));
    assert_eq!(Value::Negative(u64::MAX).as_integer(), Some(-1 - u64::MAX as i128));
    assert_eq!(Value::TextString("a".to_string()).as_integer(), None);
    assert_eq!(Value::Simple(SimpleValue::Undefined).shape(), Shape::Simple);
}

#[test]
fn decode_later_empty_key_ops_fails() {
    let v = map(vec![
        (uint(1), uint(4)),
        (uint(4), Value::Array(vec![uint(1)])),
        (uint(4), Value::Array(vec![])),
    ]);
    assert_eq!(CoseKey::from_cbor_value(v), Err(CoseError::EmptyArray));
}

#[test]
fn key_ops_order_does_not_affect_equality() {
    let a = CoseKeyBuilder::new_symmetric_key(vec![1])
        .add_key_op(iana::KeyOperation::Sign)
        .add_key_op(iana::KeyOperation::Verify)
        .build();
    let b = CoseKeyBuilder::new_symmetric_key(vec![1])
        .add_key_op(iana::KeyOperation::Verify)
        .add_key_op(iana::KeyOperation::Sign)
        .build();
    assert_eq!(a, b);
    let c = CoseKeyBuilder::new_symmetric_key(vec![1])
        .add_key_op(iana::KeyOperation::Verify)
        .build();
    assert_ne!(a, c);
    // Encoding still keeps the order of insertion.
    let m = entries(b.to_cbor_value().unwrap());
    assert_eq!(m[1], (uint(4), Value::Array(vec![uint(2), uint(1)])));
}

#[test]
fn key_equality_compares_params_in_order() {
    let a = CoseKeyBuilder::new_symmetric_key(vec![1]).param(-70000, uint(1)).param(10, uint(2)).build();
    let b = CoseKeyBuilder::new_symmetric_key(vec![1]).param(10, uint(2)).param(-70000, uint(1)).build();
    assert_ne!(a, b);
}

#[test]
fn clone_keeps_key_and_values() {
    let key = CoseKeyBuilder::new_ec2_pub_key(iana::EllipticCurve::P_256, vec![1, 2], vec![3])
        .add_key_op(iana::KeyOperation::Verify)
        .param(
            -70000,
            Value::Mapping(vec![(
                Value::TextString("a".to_string()),
                Value::Array(vec![uint(1), Value::Simple(SimpleValue::TrueValue)]),
            )]),
        )
        .build();
    let copy = key.clone();
    assert_eq!(copy, key);
    let set = CoseKeySet(vec![key]);
    assert_eq!(set.clone(), set);
    let v = Value::Array(vec![bstr(&[1, 2]), nint(-3)]);
    assert_eq!(v.clone(), v);
    assert_ne!(Value::Array(vec![bstr(&[1, 2])]), Value::Array(vec![bstr(&[1, 3])]));
}

#[test]
fn reordered_params_keep_fixed_prefix() {
    let a = CoseKeyBuilder::new_symmetric_key(vec![9])
        .algorithm(iana::Algorithm::A128GCM)
        .param(-70000, uint(1))
        .param(10, uint(2))
        .build();
    let b = CoseKeyBuilder::new_symmetric_key(vec![9])
        .algorithm(iana::Algorithm::A128GCM)
        .param(10, uint(2))
        .param(-70000, uint(1))
        .build();
    let ma = entries(a.to_cbor_value().unwrap());
    let mb = entries(b.to_cbor_value().unwrap());
    assert_eq!(ma.len(), mb.len());
    assert_eq!(ma[0].0, uint(1));
    assert_eq!(ma[..2], mb[..2]);
    assert_eq!(ma[2..], [mb[2].clone(), mb[4].clone(), mb[3].clone()]);
}
