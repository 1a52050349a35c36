use emoji_encoder::{decode, decode_with_file_check, encode, encode_file_id, has_variation_selectors, EncoderError};
use emoji_encoder::reference::{unwrap_file_id, wrap_file_id};
use emoji_encoder::variation::{from_variation_selector, to_variation_selector};

#[test]
fn test_encode_decode() {
    let emoji = "üòÄ";
    let text = "Hello, World!";

    let encoded = encode(emoji, text).unwrap();
    assert!(encoded.starts_with(emoji));

    let decoded = decode(&encoded).unwrap();
    assert_eq!(decoded, text);
}

#[test]
fn test_unicode_text() {
    let emoji = "üöÄ";
    let text = "Hello ‰∏ñÁïå üåç";

    let encoded = encode(emoji, text).unwrap();
    let decoded = decode(&encoded).unwrap();
    assert_eq!(decoded, text);
}

#[test]
fn test_empty_text() {
    let emoji = "üëç";
    let text = "";

    let encoded = encode(emoji, text).unwrap();
    assert_eq!(encoded, emoji);

    let decoded = decode(&encoded).unwrap();
    assert_eq!(decoded, text);
}

#[test]
fn encode_hi_appends_two_selectors() {
    let encoded = encode("😀", "Hi").unwrap();
    let chars: Vec<char> = encoded.chars().collect();
    assert_eq!(chars.len(), 3);
    assert_eq!(chars[0], '😀');
    assert_eq!(chars[1] as u32, 0xE0100 + 0x48 - 16);
    assert_eq!(chars[2] as u32, 0xE0100 + 0x69 - 16);
    assert_eq!(decode(&encoded).unwrap(), "Hi");
}

#[test]
fn low_bytes_use_the_first_block() {
    let encoded = encode("x", "\t").unwrap();
    let chars: Vec<char> = encoded.chars().collect();
    assert_eq!(chars, vec!['x', '\u{FE09}']);
}

#[test]
fn every_byte_maps_to_a_selector_and_back() {
    let mut seen = std::collections::HashSet::new();
    for b in 0..=255u8 {
        let c = to_variation_selector(b).unwrap();
        assert_eq!(from_variation_selector(c as u32), Some(b));
        assert!(seen.insert(c));
    }
    assert_eq!(from_variation_selector(0xFDFF), None);
    assert_eq!(from_variation_selector(0xFE10), None);
    assert_eq!(from_variation_selector(0xE00FF), None);
    assert_eq!(from_variation_selector(0xE01F0), None);
    assert_eq!(from_variation_selector('A' as u32), None);
}

#[test]
fn empty_payload_keeps_the_carrier() {
    assert_eq!(encode("🔥", "").unwrap(), "🔥");
    assert_eq!(decode("🔥").unwrap(), "");
    assert_eq!(decode("").unwrap(), "");
}

#[test]
fn decode_reads_only_the_first_run() {
    let first = encode("😀", "ab").unwrap();
    let second = encode("x", "cd").unwrap();
    let joined = format!("{}{}", first, second);
    assert_eq!(decode(&joined).unwrap(), "ab");
}

#[test]
fn decode_rejects_invalid_utf8() {
    let text = "a\u{E01EF}";
    assert!(matches!(decode(text), Err(EncoderError::Utf8Error(_))));
    assert!(matches!(decode_with_file_check(text), Err(EncoderError::Utf8Error(_))));
}

#[test]
fn marker_scan() {
    assert!(!has_variation_selectors("plain text 😀"));
    assert!(has_variation_selectors("a\u{FE0F}"));
    assert!(has_variation_selectors("a\u{E0100}b"));
    assert!(!has_variation_selectors(""));
}

#[test]
fn wrap_trims_the_reference() {
    assert_eq!(wrap_file_id("  AgAD\n"), "TG_FILE_AgAD");
    assert_eq!(wrap_file_id("a b"), "TG_FILE_a b");
}

#[test]
fn unwrap_after_wrap_gives_the_reference() {
    let (is_file, content) = unwrap_file_id(wrap_file_id(" Ab\tC d\u{3000}e "));
    assert!(is_file);
    assert_eq!(content, "AbCde");
}

#[test]
fn unwrap_finds_the_marker_anywhere() {
    let (is_file, content) = unwrap_file_id("noise TG_FILE_xy\nz".to_string());
    assert!(is_file);
    assert_eq!(content, "xyz");
}

#[test]
fn unwrap_marker_without_content_is_text() {
    let (is_file, content) = unwrap_file_id("TG_FILE_  \n".to_string());
    assert!(!is_file);
    assert_eq!(content, "TG_FILE_  \n");
}

#[test]
fn file_id_round_trip_through_carrier() {
    let encoded = encode_file_id("🎉", " BAACAgIAAxk ").unwrap();
    assert!(encoded.starts_with("🎉"));
    let (is_file, content) = decode_with_file_check(&encoded).unwrap();
    assert!(is_file);
    assert_eq!(content, "BAACAgIAAxk");
}

#[test]
fn plain_text_passes_through() {
    let encoded = encode("😎", "just text").unwrap();
    let (is_file, content) = decode_with_file_check(&encoded).unwrap();
    assert!(!is_file);
    assert_eq!(content, "just text");
}
