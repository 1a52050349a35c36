//! The media kind recorded in an attachment reference.
//!
//! A reference is the base64url (no padding) text of a binary record. The
//! record's zero runs are compacted as `0, count`; once they are expanded,
//! its first four bytes hold a little-endian type tag whose bits 24 and 25
//! are flags.

use vstd::prelude::*;

verus! {

/// Coarse media kinds of an attachment.
#[derive(Debug, Clone, Copy, PartialEq, Eq, Structural)]
pub enum FileType {
    Photo,
    Video,
    Voice,
    Document,
    Sticker,
    Audio,
    Animation,
    VideoNote,
    Unknown,
}

/// Why a reference could not be read.
#[derive(Debug, Clone, Copy, PartialEq, Eq, Structural)]
pub enum FileIdError {
    /// The text is not base64url without padding.
    InvalidBase64,
    /// The expanded record holds fewer than four bytes.
    RecordTooShort,
}

/// Tag flag: the reference carries a file reference.
pub const TYPE_ID_FILE_REFERENCE_FLAG: u32 = 0x0200_0000;

/// Tag flag: the reference points to a web location.
pub const TYPE_ID_WEB_LOCATION_FLAG: u32 = 0x0100_0000;

pub const TYPE_THUMBNAIL: u32 = 0;
pub const TYPE_PROFILE_PHOTO: u32 = 1;
pub const TYPE_PHOTO: u32 = 2;
pub const TYPE_VOICE: u32 = 3;
pub const TYPE_VIDEO: u32 = 4;
pub const TYPE_DOCUMENT: u32 = 5;
pub const TYPE_STICKER: u32 = 8;
pub const TYPE_AUDIO: u32 = 9;
pub const TYPE_ANIMATION: u32 = 10;
pub const TYPE_VIDEO_NOTE: u32 = 13;

/// `tag` with its two flag bits (24 and 25) cleared.
pub open spec fn without_flags(tag: u32) -> u32 {
    tag & 0xFCFF_FFFF
}

/// The media kind of a tag whose flags are cleared.
pub open spec fn kind_of(type_id: u32) -> FileType {
    if type_id == TYPE_PHOTO || type_id == TYPE_THUMBNAIL || type_id == TYPE_PROFILE_PHOTO {
        FileType::Photo
    } else if type_id == TYPE_VIDEO {
        FileType::Video
    } else if type_id == TYPE_VOICE {
        FileType::Voice
    } else if type_id == TYPE_DOCUMENT {
        FileType::Document
    } else if type_id == TYPE_STICKER {
        FileType::Sticker
    } else if type_id == TYPE_AUDIO {
        FileType::Audio
    } else if type_id == TYPE_ANIMATION {
        FileType::Animation
    } else if type_id == TYPE_VIDEO_NOTE {
        FileType::VideoNote
    } else {
        FileType::Unknown
    }
}

/// `data` with each `0, count` pair replaced by `count` zero bytes; a
/// final `0` with no count ends the record.
pub open spec fn rle_expand(data: Seq<u8>) -> Seq<u8>
    decreases data.len(),
{
    if data.len() == 0 {
        Seq::empty()
    } else if data[0] == 0 {
        if data.len() == 1 {
            Seq::empty()
        } else {
            Seq::new(data[1] as nat, |k: int| 0u8) + rle_expand(data.subrange(2, data.len() as int))
        }
    } else {
        seq![data[0]] + rle_expand(data.drop_first())
    }
}

/// The little-endian number in the first four bytes of `b`.
pub open spec fn le_u32(b: Seq<u8>) -> int {
    b[0] + 256 * b[1] + 65536 * b[2] + 16777216 * b[3]
}

/// The media kind of an already base64-decoded record.
pub open spec fn record_kind(data: Seq<u8>) -> Result<FileType, FileIdError> {
    let record = rle_expand(data);
    if record.len() < 4 {
        Err(FileIdError::RecordTooShort)
    } else {
        Ok(kind_of(without_flags(le_u32(record) as u32)))
    }
}

/// Clears the two flag bits of a type tag.
pub fn normalize_type_id(type_id: u32) -> (r: u32)
    ensures
        r == without_flags(type_id),
{
    let r = type_id & !TYPE_ID_FILE_REFERENCE_FLAG & !TYPE_ID_WEB_LOCATION_FLAG;
    assert(type_id & !0x0200_0000u32 & !0x0100_0000u32 == type_id & 0xFCFF_FFFFu32)
        by (bit_vector);
    r
}

/// The media kind of a tag whose flags are cleared.
pub fn file_type_of(type_id: u32) -> (r: FileType)
    ensures
        r == kind_of(type_id),
{
    match type_id {
        TYPE_PHOTO | TYPE_THUMBNAIL | TYPE_PROFILE_PHOTO => FileType::Photo,
        TYPE_VIDEO => FileType::Video,
        TYPE_VOICE => FileType::Voice,
        TYPE_DOCUMENT => FileType::Document,
        TYPE_STICKER => FileType::Sticker,
        TYPE_AUDIO => FileType::Audio,
        TYPE_ANIMATION => FileType::Animation,
        TYPE_VIDEO_NOTE => FileType::VideoNote,
        _ => FileType::Unknown,
    }
}

/// Expands the zero runs of a record.
pub fn rle_decode(data: &[u8]) -> (r: Vec<u8>)
    ensures
        r@ == rle_expand(data@),
{
    let mut result: Vec<u8> = Vec::new();
    let mut i: usize = 0;
    proof {
        assert(data@.subrange(0, data@.len() as int) =~= data@);
    }
    while i < data.len()
        invariant
            i <= data@.len(),
            rle_expand(data@) == result@ + rle_expand(data@.subrange(i as int, data@.len() as int)),
        decreases data@.len() - i,
    {
        let ghost rest = data@.subrange(i as int, data@.len() as int);
        let ghost before = result@;
        if data[i] == 0 {
            if i + 1 < data.len() {
                let count = data[i + 1] as usize;
                let mut k: usize = 0;
                while k < count
                    invariant
                        k <= count,
                        result@ == before + Seq::new(k as nat, |j: int| 0u8),
                    decreases count - k,
                {
                    result.push(0);
                    proof {
                        assert(result@ =~= before + Seq::new((k + 1) as nat, |j: int| 0u8));
                    }
                    k += 1;
                }
                proof {
                    assert(rest.subrange(2, rest.len() as int) =~= data@.subrange(
                        i + 2,
                        data@.len() as int,
                    ));
                    assert(before + (Seq::new(count as nat, |j: int| 0u8) + rle_expand(
                        rest.subrange(2, rest.len() as int),
                    )) =~= result@ + rle_expand(rest.subrange(2, rest.len() as int)));
                }
                i += 2;
            } else {
                proof {
                    assert(rest.len() == 1);
                    assert(result@ + Seq::<u8>::empty() =~= result@);
                }
                return result;
            }
        } else {
            result.push(data[i]);
            proof {
                assert(rest.drop_first() =~= data@.subrange(i + 1, data@.len() as int));
                assert(before + (seq![rest[0]] + rle_expand(rest.drop_first())) =~= result@
                    + rle_expand(rest.drop_first()));
            }
            i += 1;
        }
    }
    proof {
        assert(result@ + Seq::<u8>::empty() =~= result@);
    }
    result
}

/// A record with no zero byte expands to itself.
pub proof fn lemma_rle_literal(data: Seq<u8>)
    requires
        forall|i: int| 0 <= i < data.len() ==> data[i] != 0,
    ensures
        rle_expand(data) == data,
    decreases data.len(),
{
    if data.len() > 0 {
        lemma_rle_literal(data.drop_first());
        assert(seq![data[0]] + data.drop_first() =~= data);
    }
}

/// The media kind of an already base64-decoded record.
pub fn file_type_from_bytes(data: &[u8]) -> (r: Result<FileType, FileIdError>)
    ensures
        r == record_kind(data@),
{
    let record = rle_decode(data);
    if record.len() < 4 {
        return Err(FileIdError::RecordTooShort);
    }
    let type_id: u32 = record[0] as u32 + 256 * record[1] as u32 + 65536 * record[2] as u32
        + 16777216 * record[3] as u32;
    Ok(file_type_of(normalize_type_id(type_id)))
}

#[verifier::external_type_specification]
#[verifier::external_body]
pub struct ExDecodeError(base64::DecodeError);

/// The bytes that base64url text without padding stands for, or `None`
/// where it is not such text.
pub uninterp spec fn url_safe_no_pad_decoded(text: Seq<char>) -> Option<Seq<u8>>;

/// Relies on base64's `URL_SAFE_NO_PAD` engine and its `Engine::decode`: the
/// outcome depends on the text alone, and `Ok` holds the decoded bytes.
#[verifier::external_body]
fn decode_url_safe_no_pad(text: &str) -> (r: Result<Vec<u8>, base64::DecodeError>)
    ensures
        r is Ok <==> url_safe_no_pad_decoded(text@) is Some,
        r matches Ok(bytes) ==> url_safe_no_pad_decoded(text@) == Some(bytes@),
{
    base64::Engine::decode(&base64::engine::general_purpose::URL_SAFE_NO_PAD, text)
}

/// The media kind recorded in the attachment reference `file_id`.
pub open spec fn reference_kind(file_id: Seq<char>) -> Result<FileType, FileIdError> {
    match url_safe_no_pad_decoded(file_id) {
        Some(data) => record_kind(data),
        None => Err(FileIdError::InvalidBase64),
    }
}

/// The media kind recorded in the attachment reference `file_id`.
pub fn decode_file_type(file_id: &str) -> (r: Result<FileType, FileIdError>)
    ensures
        r == reference_kind(file_id@),
{
    match decode_url_safe_no_pad(file_id) {
        Ok(decoded) => file_type_from_bytes(decoded.as_slice()),
        Err(_) => Err(FileIdError::InvalidBase64),
    }
}

} // verus!
