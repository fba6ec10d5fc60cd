use value_encoder::handle::ValueHandle;
use value_encoder::serialize::error::SerializeError;
use value_encoder::serialize::host::Request;
use value_encoder::serialize::per_type::integer::IntSerializer;
use value_encoder::serialize::per_type::unicode::{StrSerializer, StrSubclassSerializer};
use value_encoder::serialize::token::Token;
use value_encoder::text::extract;

fn bytes(text: &str) -> Option<Vec<u8>> {
    Some(text.as_bytes().to_vec())
}

#[test]
fn extract_gives_the_text_of_well_formed_bytes() {
    assert_eq!(extract(bytes("hello")), Some(String::from("hello")));
    assert_eq!(extract(Some(vec![0x63, 0x61, 0x66, 0xC3, 0xA9])), Some(String::from("café")));
}

#[test]
fn extract_of_no_bytes_is_the_empty_text() {
    assert_eq!(extract(Some(Vec::new())), Some(String::new()));
}

#[test]
fn extract_refuses_missing_bytes() {
    assert_eq!(extract(None), None);
}

#[test]
fn extract_refuses_malformed_bytes() {
    assert_eq!(extract(Some(vec![0xFF])), None);
    assert_eq!(extract(Some(vec![0x61, 0x80])), None);
    assert_eq!(extract(Some(vec![0xC3])), None);
}

#[test]
fn extract_refuses_an_encoded_surrogate() {
    assert_eq!(extract(Some(vec![0xED, 0xA0, 0x80])), None);
}

#[test]
fn extract_refuses_an_overlong_encoding() {
    assert_eq!(extract(Some(vec![0xC0, 0x80])), None);
}

#[test]
fn extract_round_trips_every_width() {
    for text in ["a", "é", "€", "😀", "a é € 😀"] {
        let got = extract(bytes(text)).unwrap();
        assert_eq!(got, text);
        assert_eq!(got.into_bytes(), text.as_bytes().to_vec());
    }
}

#[test]
fn str_serializer_asks_for_the_stored_text() {
    let value = ValueHandle::new(7);
    assert_eq!(StrSerializer::new(value).request(), Request::ReadText(value));
}

#[test]
fn str_subclass_serializer_asks_for_the_conversion() {
    let value = ValueHandle::new(7);
    assert_eq!(StrSubclassSerializer::new(value).request(), Request::ConvertText(value));
}

#[test]
fn str_serializer_encodes_cafe() {
    let encoder = StrSerializer::new(ValueHandle::new(1));
    let token = encoder.serialize(bytes("café")).unwrap();
    assert_eq!(token, Token::Str(String::from("café")));
    match token {
        Token::Str(text) => {
            assert_eq!(text.chars().count(), 4);
            assert_eq!(text.as_bytes(), &[0x63, 0x61, 0x66, 0xC3, 0xA9]);
        }
        Token::Int(_) => panic!("a string is encoded as a string token"),
    }
}

#[test]
fn str_subclass_serializer_encodes_cafe_alike() {
    let canonical = StrSerializer::new(ValueHandle::new(1)).serialize(bytes("café"));
    let derived = StrSubclassSerializer::new(ValueHandle::new(2)).serialize(bytes("café"));
    assert_eq!(derived, Ok(Token::Str(String::from("café"))));
    assert_eq!(derived, canonical);
}

#[test]
fn both_string_encoders_agree_on_every_sample() {
    let samples: Vec<Option<Vec<u8>>> = vec![
        None,
        Some(Vec::new()),
        bytes("plain"),
        bytes("ünïcödé"),
        Some(vec![0xFF, 0xFE]),
        Some(vec![0xED, 0xB0, 0x80]),
        Some(vec![0xF0, 0x9F, 0x98, 0x80]),
    ];
    for raw in samples {
        let canonical = StrSerializer::new(ValueHandle::new(1)).serialize(raw.clone());
        let derived = StrSubclassSerializer::new(ValueHandle::new(1)).serialize(raw);
        assert_eq!(canonical, derived);
    }
}

#[test]
fn str_serializer_refuses_malformed_bytes() {
    let encoder = StrSerializer::new(ValueHandle::new(1));
    assert_eq!(encoder.serialize(Some(vec![0x80])), Err(SerializeError::InvalidStr));
    assert_eq!(encoder.serialize(Some(vec![0xED, 0xA0, 0x80])), Err(SerializeError::InvalidStr));
    assert_eq!(encoder.serialize(None), Err(SerializeError::InvalidStr));
}

#[test]
fn str_subclass_serializer_refuses_malformed_bytes() {
    let encoder = StrSubclassSerializer::new(ValueHandle::new(1));
    assert_eq!(encoder.serialize(Some(vec![0xE2, 0x82])), Err(SerializeError::InvalidStr));
    assert_eq!(encoder.serialize(None), Err(SerializeError::InvalidStr));
}

#[test]
fn str_serializer_encodes_the_empty_text() {
    let encoder = StrSerializer::new(ValueHandle::new(1));
    assert_eq!(encoder.serialize(Some(Vec::new())), Ok(Token::Str(String::new())));
}

#[test]
fn int_serializer_asks_for_the_number_and_encodes_it() {
    let value = ValueHandle::new(3);
    let encoder = IntSerializer::new(value);
    assert_eq!(encoder.request(), Request::ReadInt(value));
    assert_eq!(encoder.serialize(42), Ok(Token::Int(42)));
    assert_eq!(encoder.serialize(i64::MIN), Ok(Token::Int(i64::MIN)));
}
