use tdjson::response::{decode, Buffer, DecodeError};

#[test]
fn no_answer_decodes_to_nothing() {
    assert_eq!(decode(None), Ok(None));
}

#[test]
fn empty_answer_is_not_nothing() {
    assert_eq!(decode(Some(vec![])), Ok(Some(String::new())));
}

#[test]
fn ascii_answer_decodes_to_its_text() {
    let raw = "{\"@type\":\"ok\"}".as_bytes().to_vec();
    assert_eq!(decode(Some(raw)), Ok(Some(String::from("{\"@type\":\"ok\"}"))));
}

#[test]
fn multibyte_answer_decodes_to_its_characters() {
    let raw = vec![0x68, 0xc3, 0xa9, 0xe2, 0x98, 0x83, 0xf0, 0x9f, 0x98, 0x80];
    let text = decode(Some(raw)).unwrap().unwrap();
    assert_eq!(text, "hé☃😀");
    assert_eq!(text.chars().count(), 4);
}

#[test]
fn decoded_text_keeps_the_bytes() {
    let raw = vec![0xe2, 0x98, 0x83, 0x21];
    let text = decode(Some(raw.clone())).unwrap().unwrap();
    assert_eq!(text.into_bytes(), raw);
}

#[test]
fn stray_byte_is_a_decode_error() {
    assert_eq!(decode(Some(vec![0xff])), Err(DecodeError));
}

#[test]
fn truncated_sequence_is_a_decode_error() {
    assert_eq!(decode(Some(vec![b'a', 0xe2, 0x98])), Err(DecodeError));
}

#[test]
fn overlong_encoding_is_a_decode_error() {
    assert_eq!(decode(Some(vec![0xc0, 0x80])), Err(DecodeError));
}

#[test]
fn surrogate_is_a_decode_error() {
    assert_eq!(decode(Some(vec![0xed, 0xa0, 0x80])), Err(DecodeError));
}

#[test]
fn new_buffer_holds_nothing() {
    let buffer = Buffer::new();
    assert_eq!(buffer.text(), None);
}

#[test]
fn buffer_keeps_the_answer_it_stored() {
    let mut buffer = Buffer::new();
    assert_eq!(buffer.store(Some(b"one".to_vec())), Ok(()));
    assert_eq!(buffer.text(), Some("one"));
}

#[test]
fn buffer_replaces_the_answer() {
    let mut buffer = Buffer::new();
    buffer.store(Some(b"one".to_vec())).unwrap();
    buffer.store(Some(b"two".to_vec())).unwrap();
    assert_eq!(buffer.text(), Some("two"));
}

#[test]
fn buffer_holds_nothing_after_no_answer() {
    let mut buffer = Buffer::new();
    buffer.store(Some(b"one".to_vec())).unwrap();
    assert_eq!(buffer.store(None), Ok(()));
    assert_eq!(buffer.text(), None);
}

#[test]
fn buffer_holds_nothing_after_a_refused_answer() {
    let mut buffer = Buffer::new();
    buffer.store(Some(b"one".to_vec())).unwrap();
    assert_eq!(buffer.store(Some(vec![0x80])), Err(DecodeError));
    assert_eq!(buffer.text(), None);
}

#[test]
fn invalidated_buffer_holds_nothing() {
    let mut buffer = Buffer::new();
    buffer.store(Some(b"one".to_vec())).unwrap();
    buffer.invalidate();
    assert_eq!(buffer.text(), None);
}

#[test]
fn value_beyond_the_last_scalar_is_a_decode_error() {
    assert_eq!(decode(Some(vec![0xf4, 0x90, 0x80, 0x80])), Err(DecodeError));
    assert_eq!(decode(Some(vec![0xf8, 0x88, 0x80, 0x80, 0x80])), Err(DecodeError));
}

#[test]
fn last_scalar_decodes() {
    let text = decode(Some(vec![0xf4, 0x8f, 0xbf, 0xbf])).unwrap().unwrap();
    assert_eq!(text, "\u{10ffff}");
}

#[test]
fn zero_byte_decodes_to_the_nul_character() {
    let text = decode(Some(vec![b'a', 0, b'b'])).unwrap().unwrap();
    assert_eq!(text, "a\0b");
}
