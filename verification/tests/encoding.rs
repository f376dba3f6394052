use usenetsync::encoding::text_eq;
use usenetsync::{decode_transport, encode_transport, TransportError};

#[test]
fn transport_text_is_standard_base64() {
    assert_eq!(encode_transport(b"hello world"), Some("aGVsbG8gd29ybGQ=".to_string()));
    assert_eq!(encode_transport(b""), Some(String::new()));
    assert_eq!(encode_transport(&[0xfb, 0xff]), Some("+/8=".to_string()));
    assert_eq!(encode_transport(b"a"), Some("YQ==".to_string()));
    assert_eq!(encode_transport(b"abc"), Some("YWJj".to_string()));
}

#[test]
fn transport_text_is_decoded() {
    assert_eq!(decode_transport("aGVsbG8gd29ybGQ="), Ok(b"hello world".to_vec()));
    assert_eq!(decode_transport("+/8="), Ok(vec![0xfb, 0xff]));
    assert_eq!(decode_transport(""), Ok(Vec::new()));
}

#[test]
fn transport_round_trip_restores_the_payload() {
    let payloads: Vec<Vec<u8>> = vec![vec![], vec![0], vec![0, 1], (0..=255).collect(), vec![0xff; 1000]];
    for payload in payloads {
        let text = encode_transport(&payload).unwrap();
        assert_eq!(decode_transport(&text), Ok(payload));
    }
}

#[test]
fn malformed_transport_text_is_refused() {
    assert_eq!(decode_transport("*"), Err(TransportError::Malformed));
    assert_eq!(decode_transport("a"), Err(TransportError::Malformed));
    assert_eq!(decode_transport("-_8="), Err(TransportError::Malformed));
    assert_eq!(decode_transport("YQ==YQ=="), Err(TransportError::Malformed));
    assert_eq!(decode_transport("YWJj\n"), Err(TransportError::Malformed));
}

#[test]
fn texts_are_equal_when_their_characters_are() {
    assert!(text_eq("", ""));
    assert!(text_eq("abc", "abc"));
    assert!(!text_eq("abc", "abd"));
    assert!(!text_eq("abc", "ab"));
    assert!(!text_eq("", "a"));
    assert!(text_eq("héllo", "héllo"));
    assert!(!text_eq("é", "e\u{301}"));
}
