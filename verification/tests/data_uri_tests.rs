use zpl::data_uri::{encode_data_uri, parse_data_uri, DataUri, DataUriError};

#[test]
fn data_uri_decoding() {
    let uri = parse_data_uri(&b"data:image/svg,<svg></svg>".to_vec()).unwrap();
    assert_eq!(uri.mime, "image/svg");
    assert_eq!(*uri.data, *b"<svg></svg>");

    let uri = parse_data_uri(&b"data:application/png;base64,AEAQ".to_vec()).unwrap();
    assert_eq!(uri.mime, "application/png");
    assert_eq!(*uri.data, *b"\x00\x40\x10");
}

#[test]
fn data_uri_rejections() {
    assert_eq!(
        parse_data_uri(&b"http://example".to_vec()).unwrap_err(),
        DataUriError::NotDataUri
    );
    assert_eq!(
        parse_data_uri(&b"data:text/plain".to_vec()).unwrap_err(),
        DataUriError::MissingSeparator
    );
    assert_eq!(
        parse_data_uri(&b"data:text/plain;base64,!!!".to_vec()).unwrap_err(),
        DataUriError::InvalidBase64
    );
}

#[test]
fn base64_padding_is_indifferent() {
    // Both the padded and the unpadded spelling decode.
    let padded = parse_data_uri(&b"data:a/b;base64,AQID".to_vec()).unwrap();
    assert_eq!(*padded.data, [1, 2, 3]);
    let unpadded = parse_data_uri(&b"data:a/b;base64,AQI".to_vec()).unwrap();
    assert_eq!(*unpadded.data, [1, 2]);
}

#[test]
fn options_other_than_base64_leave_data_verbatim() {
    let uri = parse_data_uri(&b"data:a/b;charset=utf-8,xy".to_vec()).unwrap();
    assert_eq!(uri.mime, "a/b");
    assert_eq!(*uri.data, *b"xy");
}

#[test]
fn data_uri_round_trips() {
    let original = DataUri {
        mime: "a/b".to_string(),
        data: vec![1, 2, 3],
    };
    let encoded = encode_data_uri(&original);
    assert_eq!(encoded, "data:a/b;base64,AQID");
    let decoded = parse_data_uri(&encoded.into_bytes()).unwrap();
    assert_eq!(decoded.mime, "a/b");
    assert_eq!(*decoded.data, [1, 2, 3]);
}
