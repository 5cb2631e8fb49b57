use server_persistence::key::{
    decode_component_key, decode_entity_key, encode_component_key, encode_entity_key, ComponentKey,
    DecodeError, EntityKey, ReplyValue,
};

#[test]
fn entity_key_round_trips_through_bytes() {
    let bytes: Vec<u8> = (0u8..16).collect();
    let key = EntityKey::from_bytes(&bytes).unwrap();
    assert_eq!(encode_entity_key(&key), bytes);
}

#[test]
fn entity_key_round_trips_through_reply() {
    let bytes = vec![0xde, 0xad, 0xbe, 0xef, 0, 1, 2, 3, 4, 5, 6, 7, 8, 9, 10, 255];
    let key = decode_entity_key(&ReplyValue::Data(bytes.clone())).unwrap();
    assert_eq!(encode_entity_key(&key), bytes);
}

#[test]
fn entity_key_rejects_wrong_length() {
    assert_eq!(EntityKey::from_bytes(&[0u8; 15]), Err(DecodeError::WrongLength));
    assert_eq!(EntityKey::from_bytes(&[0u8; 17]), Err(DecodeError::WrongLength));
    assert_eq!(EntityKey::from_bytes(&[]), Err(DecodeError::WrongLength));
    assert_eq!(
        decode_entity_key(&ReplyValue::Data(vec![1, 2, 3])),
        Err(DecodeError::WrongLength)
    );
}

#[test]
fn entity_key_rejects_integer_reply() {
    assert_eq!(decode_entity_key(&ReplyValue::Int(5)), Err(DecodeError::TypeMismatch));
    assert_eq!(decode_entity_key(&ReplyValue::Other), Err(DecodeError::TypeMismatch));
}

#[test]
fn entity_key_from_byte_vec() {
    let bytes: Vec<u8> = (100u8..116).collect();
    let keys = EntityKey::from_byte_vec(&bytes).unwrap();
    assert_eq!(keys.len(), 1);
    assert_eq!(encode_entity_key(&keys[0]), bytes);
    assert!(EntityKey::from_byte_vec(&bytes[..8]).is_none());
}

#[test]
fn component_key_concrete_scenario() {
    assert_eq!(encode_component_key(&ComponentKey(300)), vec![0x2c, 0x01]);
    assert_eq!(
        decode_component_key(&ReplyValue::Data(vec![0x2c, 0x01])),
        Ok(ComponentKey(300))
    );
    assert_eq!(decode_component_key(&ReplyValue::Int(300)), Ok(ComponentKey(300)));
    assert_eq!(decode_component_key(&ReplyValue::Int(70000)), Err(DecodeError::OutOfRange));
}

#[test]
fn component_key_round_trips_for_every_value() {
    for n in 0u16..=65535 {
        let encoded = encode_component_key(&ComponentKey(n));
        assert_eq!(encoded.len(), 2);
        assert_eq!(decode_component_key(&ReplyValue::Data(encoded)), Ok(ComponentKey(n)));
        assert_eq!(decode_component_key(&ReplyValue::Int(n as i64)), Ok(ComponentKey(n)));
    }
}

#[test]
fn component_key_encodes_little_endian() {
    assert_eq!(encode_component_key(&ComponentKey(0)), vec![0x00, 0x00]);
    assert_eq!(encode_component_key(&ComponentKey(1)), vec![0x01, 0x00]);
    assert_eq!(encode_component_key(&ComponentKey(0x0102)), vec![0x02, 0x01]);
    assert_eq!(encode_component_key(&ComponentKey(65535)), vec![0xff, 0xff]);
}

#[test]
fn component_key_rejects_out_of_range_integers() {
    assert_eq!(decode_component_key(&ReplyValue::Int(65536)), Err(DecodeError::OutOfRange));
    assert_eq!(decode_component_key(&ReplyValue::Int(-1)), Err(DecodeError::OutOfRange));
    assert_eq!(
        decode_component_key(&ReplyValue::Int(i64::MAX)),
        Err(DecodeError::OutOfRange)
    );
    assert_eq!(
        decode_component_key(&ReplyValue::Int(i64::MIN)),
        Err(DecodeError::OutOfRange)
    );
    assert_eq!(decode_component_key(&ReplyValue::Int(0)), Ok(ComponentKey(0)));
    assert_eq!(decode_component_key(&ReplyValue::Int(65535)), Ok(ComponentKey(65535)));
}

#[test]
fn component_key_rejects_wrong_length_and_shape() {
    assert_eq!(
        decode_component_key(&ReplyValue::Data(vec![0x2c])),
        Err(DecodeError::WrongLength)
    );
    assert_eq!(
        decode_component_key(&ReplyValue::Data(vec![1, 2, 3])),
        Err(DecodeError::WrongLength)
    );
    assert_eq!(decode_component_key(&ReplyValue::Data(vec![])), Err(DecodeError::WrongLength));
    assert_eq!(decode_component_key(&ReplyValue::Other), Err(DecodeError::TypeMismatch));
}

#[test]
fn component_key_from_byte_vec() {
    let keys = ComponentKey::from_byte_vec(&[0x2c, 0x01]).unwrap();
    assert_eq!(keys, vec![ComponentKey(300)]);
    assert!(ComponentKey::from_byte_vec(&[0x2c]).is_none());
}
