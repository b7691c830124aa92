use docker_client::decode::decode_body;
use docker_client::errors::Error;

#[test]
fn non_json_body_fails_with_type_name_and_raw_text() {
    let body = b"not json".to_vec();
    let err = decode_body("Container", &body).unwrap_err();
    match err {
        Error::Decode {
            requested_type,
            body_text,
        } => {
            assert_eq!(requested_type, "Container");
            assert_eq!(body_text, "not json");
        }
        other => panic!("expected a decode error, got {:?}", other),
    }
}

#[test]
fn decode_error_message_names_type_and_body() {
    let body = b"not json".to_vec();
    let err = decode_body("Container", &body).unwrap_err();
    assert_eq!(err.message(), "could not deserialize Container: not json");
}

#[test]
fn well_formed_json_decodes() {
    let body = b"{\"a\":1}".to_vec();
    let value = decode_body("Container", &body).unwrap();
    assert_eq!(value["a"], serde_json::Value::from(1));
}

#[test]
fn json_array_decodes() {
    let body = b"[1,2,3]".to_vec();
    assert!(decode_body("Container", &body).is_ok());
}

#[test]
fn invalid_utf8_body_is_reported_lossily() {
    let body = vec![0xff, 0xfe, b'x'];
    let err = decode_body("Image", &body).unwrap_err();
    match err {
        Error::Decode { body_text, .. } => {
            assert_eq!(body_text, "\u{fffd}\u{fffd}x");
        }
        other => panic!("expected a decode error, got {:?}", other),
    }
}
