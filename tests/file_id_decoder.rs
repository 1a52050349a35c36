use emoji_encoder::file_id::{
    file_type_from_bytes, file_type_of, normalize_type_id, rle_decode, TYPE_ID_FILE_REFERENCE_FLAG,
    TYPE_ID_WEB_LOCATION_FLAG, TYPE_PHOTO, TYPE_STICKER,
};
use emoji_encoder::{classify, decode_file_type, encode_file_id, reveal_hidden, FileIdError, FileType, Reveal};

#[test]
fn test_rle_decode() {
    // Test basic RLE decoding
    let encoded = vec![1, 2, 0, 3, 4, 5];
    let decoded = rle_decode(&encoded);
    assert_eq!(decoded, vec![1, 2, 0, 0, 0, 4, 5]);
}

#[test]
fn test_normalize_type_id() {
    // Test with flags
    let type_id_with_flags = TYPE_PHOTO | TYPE_ID_FILE_REFERENCE_FLAG;
    assert_eq!(normalize_type_id(type_id_with_flags), TYPE_PHOTO);

    let type_id_with_both_flags = TYPE_STICKER | TYPE_ID_FILE_REFERENCE_FLAG | TYPE_ID_WEB_LOCATION_FLAG;
    assert_eq!(normalize_type_id(type_id_with_both_flags), TYPE_STICKER);
}

#[test]
fn rle_without_zeros_is_unchanged() {
    let data = vec![7, 1, 255, 3];
    assert_eq!(rle_decode(&data), data);
    assert_eq!(rle_decode(&[]), Vec::<u8>::new());
}

#[test]
fn rle_trailing_zero_ends_the_record() {
    assert_eq!(rle_decode(&[1, 0]), vec![1]);
    assert_eq!(rle_decode(&[0, 0, 9]), vec![9]);
}

#[test]
fn flagged_photo_tag_is_a_photo() {
    let tag = 0x0000_0002 | (1 << 25) | (1 << 24);
    assert_eq!(normalize_type_id(tag), 0x0000_0002);
    assert_eq!(file_type_of(normalize_type_id(tag)), FileType::Photo);
}

#[test]
fn kinds_of_tags() {
    assert_eq!(file_type_of(0), FileType::Photo);
    assert_eq!(file_type_of(1), FileType::Photo);
    assert_eq!(file_type_of(3), FileType::Voice);
    assert_eq!(file_type_of(4), FileType::Video);
    assert_eq!(file_type_of(5), FileType::Document);
    assert_eq!(file_type_of(8), FileType::Sticker);
    assert_eq!(file_type_of(9), FileType::Audio);
    assert_eq!(file_type_of(10), FileType::Animation);
    assert_eq!(file_type_of(13), FileType::VideoNote);
    assert_eq!(file_type_of(7), FileType::Unknown);
}

#[test]
fn record_bytes_give_the_kind() {
    assert_eq!(file_type_from_bytes(&[2, 0, 2, 3]), Ok(FileType::Photo));
    assert_eq!(file_type_from_bytes(&[9, 0, 3, 0x41]), Ok(FileType::Audio));
    assert_eq!(file_type_from_bytes(&[2, 0, 0]), Err(FileIdError::RecordTooShort));
}

#[test]
fn decode_file_type_of_references() {
    assert_eq!(decode_file_type("AgAD"), Ok(FileType::Photo));
    assert_eq!(decode_file_type("AgACAw"), Ok(FileType::Photo));
    assert_eq!(decode_file_type("CAAD"), Ok(FileType::Sticker));
    assert_eq!(decode_file_type("BAAD"), Ok(FileType::Video));
    assert_eq!(decode_file_type("BQAD"), Ok(FileType::Document));
    assert_eq!(decode_file_type("BwAD"), Ok(FileType::Unknown));
}

#[test]
fn decode_file_type_errors() {
    assert_eq!(decode_file_type("!!!"), Err(FileIdError::InvalidBase64));
    assert_eq!(decode_file_type("AgA="), Err(FileIdError::InvalidBase64));
    assert_eq!(decode_file_type("AgAA"), Err(FileIdError::RecordTooShort));
    assert_eq!(decode_file_type(""), Err(FileIdError::RecordTooShort));
}

#[test]
fn classify_payloads() {
    assert!(matches!(classify(true, "CAAD".to_string()),
        Reveal::File { ref file_id, kind: FileType::Sticker } if file_id == "CAAD"));
    assert!(matches!(classify(true, "BwAD".to_string()), Reveal::FileId(ref f) if f == "BwAD"));
    assert!(matches!(classify(true, "!!".to_string()), Reveal::FileId(ref f) if f == "!!"));
    assert!(matches!(classify(false, "CAAD".to_string()), Reveal::Text(ref t) if t == "CAAD"));
}

#[test]
fn reveal_hidden_reference() {
    let encoded = encode_file_id("👀", "AgAD").unwrap();
    assert!(matches!(reveal_hidden(&encoded),
        Ok(Reveal::File { ref file_id, kind: FileType::Photo }) if file_id == "AgAD"));
    assert!(matches!(reveal_hidden("no hidden text"), Ok(Reveal::Text(ref t)) if t.is_empty()));
}
