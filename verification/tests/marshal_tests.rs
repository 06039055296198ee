use kson::marshal::decode_foreign_string;
use kson::marshal::encode_host_string;
use kson::marshal::EncodingError;

#[test]
fn encode_appends_single_terminator() {
    let buffer = encode_host_string("hi").unwrap();
    assert_eq!(buffer, vec![b'h', b'i', 0]);
}

#[test]
fn encode_empty_string_is_just_terminator() {
    let buffer = encode_host_string("").unwrap();
    assert_eq!(buffer, vec![0]);
}

#[test]
fn encode_rejects_embedded_null() {
    let err = encode_host_string("a\0b").unwrap_err();
    assert_eq!(err, EncodingError { position: 1 });
}

#[test]
fn encode_rejects_leading_null() {
    let err = encode_host_string("\0rest").unwrap_err();
    assert_eq!(err, EncodingError { position: 0 });
}

#[test]
fn encode_reports_first_null_after_multibyte_char() {
    // 'é' encodes as two bytes, so the NUL sits at byte offset 2.
    let err = encode_host_string("é\0").unwrap_err();
    assert_eq!(err, EncodingError { position: 2 });
}

#[test]
fn round_trip_ascii() {
    let buffer = encode_host_string("hello world").unwrap();
    assert_eq!(decode_foreign_string(&buffer), "hello world");
}

#[test]
fn round_trip_unicode() {
    let buffer = encode_host_string("héllo ☃ κόσμε").unwrap();
    assert_eq!(decode_foreign_string(&buffer), "héllo ☃ κόσμε");
}

#[test]
fn round_trip_empty() {
    let buffer = encode_host_string("").unwrap();
    assert_eq!(decode_foreign_string(&buffer), "");
}

#[test]
fn decode_stops_at_first_null() {
    let buffer = vec![b'a', b'b', b'c', 0, b'd', b'e', b'f'];
    assert_eq!(decode_foreign_string(&buffer), "abc");
}

#[test]
fn decode_without_terminator_takes_everything() {
    let buffer = vec![b'a', b'b', b'c'];
    assert_eq!(decode_foreign_string(&buffer), "abc");
}

#[test]
fn decode_replaces_invalid_bytes() {
    let buffer = vec![0xff, 0];
    assert_eq!(decode_foreign_string(&buffer), "\u{fffd}");
}

#[test]
fn decode_replaces_invalid_bytes_inside_text() {
    let buffer = vec![b'a', 0xc3, b'b', 0];
    assert_eq!(decode_foreign_string(&buffer), "a\u{fffd}b");
}
