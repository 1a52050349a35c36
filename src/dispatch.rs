//! What to do with decoded text: re-deliver a hidden attachment, show a
//! reference that cannot be re-delivered, or show hidden plain text.

use vstd::prelude::*;
use vstd::utf8::*;

use crate::file_id::{decode_file_type, reference_kind, FileType};
use crate::reference::{decode_with_file_check, unwrapped};
use crate::variation::{hidden_bytes, EncoderError};

verus! {

/// The outcome of reading hidden content.
#[derive(Debug)]
pub enum Reveal {
    /// An attachment reference of a known media kind.
    File { file_id: String, kind: FileType },
    /// An attachment reference whose media kind could not be read: shown as
    /// opaque text.
    FileId(String),
    /// Hidden plain text (possibly empty).
    Text(String),
}

/// Whether `r` is what the payload `(is_file, content)` calls for.
pub open spec fn reveals(is_file: bool, content: Seq<char>, r: Reveal) -> bool {
    if !is_file {
        r matches Reveal::Text(t) && t@ == content
    } else {
        match reference_kind(content) {
            Ok(kind) if kind != FileType::Unknown => (r matches Reveal::File { file_id, kind: k }
                && file_id@ == content && k == kind),
            _ => r matches Reveal::FileId(f) && f@ == content,
        }
    }
}

/// Turns an unwrapped payload into what to show: a reference is re-delivered
/// by its media kind where that can be read and is known, else shown as
/// text; anything else is plain text.
pub fn classify(is_file: bool, content: String) -> (r: Reveal)
    ensures
        reveals(is_file, content@, r),
{
    if is_file {
        match decode_file_type(content.as_str()) {
            Ok(kind) => {
                if kind != FileType::Unknown {
                    Reveal::File { file_id: content, kind }
                } else {
                    Reveal::FileId(content)
                }
            },
            Err(_) => Reveal::FileId(content),
        }
    } else {
        Reveal::Text(content)
    }
}

/// Decodes `text` and decides what its hidden content calls for.
pub fn reveal_hidden(text: &str) -> (r: Result<Reveal, EncoderError>)
    ensures
        r is Ok <==> valid_utf8(hidden_bytes(text@)),
        r matches Ok(rv) ==> reveals(
            unwrapped(decode_utf8(hidden_bytes(text@))).0,
            unwrapped(decode_utf8(hidden_bytes(text@))).1,
            rv,
        ),
        r matches Err(e) ==> e is Utf8Error,
{
    let (is_file, content) = decode_with_file_check(text)?;
    Ok(classify(is_file, content))
}

} // verus!
