use den::text::{TextCodecError, TextDecoder, TextEncoder};

#[test]
fn labels_resolve_to_canonical_encodings() {
    let d = TextDecoder::new("utf-8", false, false).unwrap();
    assert_eq!(d.encoding(), "utf-8");
    let upper = TextDecoder::new("UTF-8", false, false).unwrap();
    assert_eq!(upper.encoding(), "utf-8");
    let latin = TextDecoder::new("latin1", false, false).unwrap();
    assert_eq!(latin.encoding(), "windows-1252");
    assert_eq!(
        TextDecoder::new("no such encoding", false, false).unwrap_err(),
        TextCodecError::UnknownEncoding
    );
}

#[test]
fn decoders_keep_their_switches() {
    let d = TextDecoder::new("utf-8", true, true).unwrap();
    assert!(d.fatal());
    assert!(d.ignore_bom());
}

#[test]
fn no_buffer_decodes_to_nothing() {
    let d = TextDecoder::new("utf-8", true, false).unwrap();
    assert_eq!(d.decode(None), Ok(String::new()));
}

#[test]
fn utf8_bytes_decode_to_their_text() {
    let d = TextDecoder::new("utf-8", false, false).unwrap();
    let bytes = "h\u{e9}llo".as_bytes().to_vec();
    assert_eq!(d.decode(Some(&bytes)), Ok("h\u{e9}llo".to_string()));
}

#[test]
fn windows_1252_bytes_decode_to_their_text() {
    let d = TextDecoder::new("latin1", false, false).unwrap();
    assert_eq!(d.decode(Some(&vec![0xE9])), Ok("\u{e9}".to_string()));
}

#[test]
fn malformed_bytes_fail_in_fatal_mode() {
    let d = TextDecoder::new("utf-8", true, false).unwrap();
    assert_eq!(d.decode(Some(&vec![0xFF])), Err(TextCodecError::Malformed));
}

#[test]
fn malformed_bytes_are_replaced_otherwise() {
    let d = TextDecoder::new("utf-8", false, false).unwrap();
    assert_eq!(d.decode(Some(&vec![0xFF])), Ok("\u{FFFD}".to_string()));
}

#[test]
fn a_byte_order_mark_is_stripped_unless_kept() {
    let bytes = vec![0xEF, 0xBB, 0xBF, b'a'];
    let stripping = TextDecoder::new("utf-8", false, false).unwrap();
    assert_eq!(stripping.decode(Some(&bytes)), Ok("a".to_string()));
    let keeping = TextDecoder::new("utf-8", false, true).unwrap();
    assert_eq!(keeping.decode(Some(&bytes)), Ok("\u{FEFF}a".to_string()));
}

#[test]
fn the_encoder_writes_utf8() {
    let e = TextEncoder::new();
    assert_eq!(e.encoding(), "utf-8");
    assert_eq!(e.encode("h\u{e9}llo"), "h\u{e9}llo".as_bytes().to_vec());
}

#[test]
fn encode_into_fills_the_front_of_the_buffer() {
    let e = TextEncoder::new();
    let mut dest = vec![0u8; 8];
    let (read, written) = e.encode_into("ab\u{e9}", &mut dest);
    assert_eq!(read, 4);
    assert_eq!(written, 4);
    assert_eq!(&dest[..4], "ab\u{e9}".as_bytes());
    assert_eq!(&dest[4..], &[0, 0, 0, 0]);
}
