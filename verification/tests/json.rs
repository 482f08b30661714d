use echo::error::ErrorKind;
use echo::json::{decode_text, encode_text};

#[test]
fn encode_text_writes_a_json_string() {
    assert_eq!(encode_text("hello"), Ok(b"\"hello\"".to_vec()));
    assert_eq!(encode_text(""), Ok(b"\"\"".to_vec()));
}

#[test]
fn encode_text_escapes_quotes_and_controls() {
    assert_eq!(encode_text("a\"b"), Ok(b"\"a\\\"b\"".to_vec()));
    assert_eq!(encode_text("a\\b"), Ok(b"\"a\\\\b\"".to_vec()));
    assert_eq!(encode_text("line\nbreak"), Ok(b"\"line\\nbreak\"".to_vec()));
    assert_eq!(encode_text("\u{1}"), Ok(b"\"\\u0001\"".to_vec()));
}

#[test]
fn encode_text_keeps_other_characters_as_utf8() {
    let mut expected = vec![b'"'];
    expected.extend_from_slice("héllo, 世界".as_bytes());
    expected.push(b'"');
    assert_eq!(encode_text("héllo, 世界"), Ok(expected));
}

#[test]
fn decode_text_reads_a_json_string() {
    assert_eq!(decode_text(b"\"hello\""), Ok(String::from("hello")));
    assert_eq!(decode_text(b"\"\""), Ok(String::new()));
    assert_eq!(decode_text(b"  \"padded\"\n"), Ok(String::from("padded")));
    assert_eq!(decode_text(b"\"\\u00e9\\n\""), Ok(String::from("é\n")));
}

#[test]
fn decode_text_refuses_what_is_no_json_string() {
    assert_eq!(decode_text(b"hello"), Err(ErrorKind::DeserializationError));
    assert_eq!(decode_text(b""), Err(ErrorKind::DeserializationError));
    assert_eq!(decode_text(b"42"), Err(ErrorKind::DeserializationError));
    assert_eq!(decode_text(b"{\"a\":1}"), Err(ErrorKind::DeserializationError));
    assert_eq!(decode_text(b"\"open"), Err(ErrorKind::DeserializationError));
    assert_eq!(decode_text(b"\"a\" \"b\""), Err(ErrorKind::DeserializationError));
    assert_eq!(decode_text(&[b'"', 0xff, b'"']), Err(ErrorKind::DeserializationError));
}

#[test]
fn text_survives_encoding_and_decoding() {
    let samples = [
        "",
        "hello",
        "with \"quotes\" and \\ backslashes",
        "tab\tnewline\nreturn\r",
        "\u{0}\u{1f}\u{7f}",
        "héllo, 世界 🌍",
        "{\"looks\":\"like json\"}",
    ];
    for sample in samples {
        let bytes = encode_text(sample).unwrap();
        assert_eq!(decode_text(&bytes), Ok(String::from(sample)));
    }
}
