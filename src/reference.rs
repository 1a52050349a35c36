//! Attachment references carried as sentinel-tagged text.
//!
//! A reference rides through the carrier codec as `"TG_FILE_" + reference`.
//! On the way back the sentinel is searched anywhere in the decoded text, so
//! plain text that happens to hold it is read as a reference too: a known
//! limit of tagging by a marker instead of a real tagged union.

use vstd::prelude::*;
use vstd::utf8::*;

use crate::text::{
    chars_of, free_of_white_space, lemma_without_white_space_identity,
    lemma_without_white_space_trimmed, remove_white_space, trim, trimmed, without_white_space,
};
use crate::variation::{decode, encode, encoding, free_of_selectors, hidden_bytes, lemma_round_trip, EncoderError};

verus! {

/// The marker that prefixes an attachment reference.
pub const FILE_ID_PREFIX: &'static str = "TG_FILE_";

/// The characters of the marker.
pub open spec fn sentinel() -> Seq<char> {
    seq!['T', 'G', '_', 'F', 'I', 'L', 'E', '_']
}

/// Whether `p` occurs in `s` starting at index `i`.
pub open spec fn occurs_at(s: Seq<char>, p: Seq<char>, i: int) -> bool {
    0 <= i && i + p.len() <= s.len() && s.subrange(i, i + p.len()) == p
}

/// The first index at or after `i` where `p` occurs in `s`.
pub open spec fn first_occurrence_from(s: Seq<char>, p: Seq<char>, i: int) -> Option<int>
    decreases s.len() + 1 - i,
{
    if i < 0 || i + p.len() > s.len() {
        None
    } else if occurs_at(s, p, i) {
        Some(i)
    } else {
        first_occurrence_from(s, p, i + 1)
    }
}

/// The first index where `p` occurs in `s`.
pub open spec fn first_occurrence(s: Seq<char>, p: Seq<char>) -> Option<int> {
    first_occurrence_from(s, p, 0)
}

/// The payload text that carries `reference`.
pub open spec fn wrapped(reference: Seq<char>) -> Seq<char> {
    sentinel() + trimmed(reference)
}

/// What decoded text stands for: `(true, reference)` where the sentinel
/// occurs and is followed by some non-white-space character, else
/// `(false, text)`.
pub open spec fn unwrapped(text: Seq<char>) -> (bool, Seq<char>) {
    match first_occurrence(text, sentinel()) {
        Some(p) => {
            let content = without_white_space(text.subrange(p + sentinel().len(), text.len() as int));
            if content.len() > 0 {
                (true, content)
            } else {
                (false, text)
            }
        },
        None => (false, text),
    }
}

/// Where the search finds `p`, `p` occurs, and nowhere earlier.
pub proof fn lemma_first_occurrence_occurs(s: Seq<char>, p: Seq<char>, i: int)
    ensures
        first_occurrence_from(s, p, i) matches Some(k) ==> occurs_at(s, p, k) && i <= k
            && forall|j: int| i <= j < k ==> !occurs_at(s, p, j),
    decreases s.len() + 1 - i,
{
    if i >= 0 && i + p.len() <= s.len() && !occurs_at(s, p, i) {
        lemma_first_occurrence_occurs(s, p, i + 1);
    }
}

/// Where `p` occurs nowhere in `s`, the search finds nothing.
pub proof fn lemma_no_occurrence(s: Seq<char>, p: Seq<char>, i: int)
    requires
        forall|j: int| !occurs_at(s, p, j),
    ensures
        first_occurrence_from(s, p, i) is None,
    decreases s.len() + 1 - i,
{
    if i >= 0 && i + p.len() <= s.len() {
        assert(!occurs_at(s, p, i));
        lemma_no_occurrence(s, p, i + 1);
    }
}

/// Whether `p` occurs in `s` at index `i`, compared character by character.
fn matches_at(s: &Vec<char>, p: &Vec<char>, i: usize) -> (r: bool)
    requires
        i + p@.len() <= s@.len(),
    ensures
        r == occurs_at(s@, p@, i as int),
{
    let mut j: usize = 0;
    while j < p.len()
        invariant
            j <= p@.len(),
            i + p@.len() <= s@.len(),
            forall|k: int| 0 <= k < j ==> s@[i + k] == p@[k],
        decreases p@.len() - j,
    {
        let n = s.len();
        assert(i + j < n);
        if s[i + j] != p[j] {
            proof {
                assert(s@.subrange(i as int, i + p@.len())[j as int] != p@[j as int]);
            }
            return false;
        }
        j += 1;
    }
    proof {
        assert(s@.subrange(i as int, i + p@.len()) =~= p@);
    }
    true
}

/// The first index where `p` occurs in `s`, if any.
pub(crate) fn find_first(s: &Vec<char>, p: &Vec<char>) -> (r: Option<usize>)
    ensures
        r matches Some(i) ==> first_occurrence(s@, p@) == Some(i as int),
        r is None ==> first_occurrence(s@, p@) is None,
{
    let mut i: usize = 0;
    while p.len() <= s.len() - i
        invariant
            i <= s@.len(),
            first_occurrence(s@, p@) == first_occurrence_from(s@, p@, i as int),
        decreases s@.len() - i,
    {
        if matches_at(s, p, i) {
            return Some(i);
        }
        proof {
            // The empty pattern occurs everywhere, so this one is not empty.
            if p@.len() == 0 {
                assert(s@.subrange(i as int, i as int) =~= p@);
            }
        }
        i += 1;
    }
    None
}

/// The payload text that carries `file_id`: the marker followed by the
/// reference without its surrounding white space.
pub fn wrap_file_id(file_id: &str) -> (r: String)
    ensures
        r@ == wrapped(file_id@),
{
    let mut data = FILE_ID_PREFIX.to_owned();
    proof {
        reveal_strlit("TG_FILE_");
        assert(data@ =~= sentinel());
    }
    let bare = trim(file_id);
    data.append(bare.as_str());
    data
}

/// Tells a wrapped reference from plain text: `(true, reference)` with all
/// white space removed, or `(false, decoded)` unchanged.
pub fn unwrap_file_id(decoded: String) -> (r: (bool, String))
    ensures
        r.0 == unwrapped(decoded@).0,
        r.1@ == unwrapped(decoded@).1,
{
    let chars = chars_of(decoded.as_str());
    let marker = chars_of(FILE_ID_PREFIX);
    proof {
        reveal_strlit("TG_FILE_");
        assert(marker@ =~= sentinel());
    }
    if let Some(pos) = find_first(&chars, &marker) {
        proof {
            lemma_first_occurrence_occurs(chars@, marker@, 0);
        }
        let n = chars.len();
        assert(pos + marker@.len() <= n);
        let file_id = remove_white_space(&chars, pos + marker.len());
        if !file_id.as_str().is_empty() {
            return (true, file_id);
        }
    }
    (false, decoded)
}

/// Hides the attachment reference `file_id` behind `emoji`.
pub fn encode_file_id(emoji: &str, file_id: &str) -> (r: Result<String, EncoderError>)
    ensures
        r matches Ok(s) && s@ == encoding(emoji@, encode_utf8(wrapped(file_id@))),
{
    let file_data = wrap_file_id(file_id);
    encode(emoji, file_data.as_str())
}

/// Decodes `text` and tells a hidden attachment reference from hidden plain
/// text.
pub fn decode_with_file_check(text: &str) -> (r: Result<(bool, String), EncoderError>)
    ensures
        r is Ok <==> valid_utf8(hidden_bytes(text@)),
        r matches Ok(pair) ==> pair.0 == unwrapped(decode_utf8(hidden_bytes(text@))).0
            && pair.1@ == unwrapped(decode_utf8(hidden_bytes(text@))).1,
        r matches Err(e) ==> e is Utf8Error,
{
    let decoded = decode(text)?;
    Ok(unwrap_file_id(decoded))
}

/// Wrapping then unwrapping a reference that holds some non-white-space
/// character gives it back, with all white space removed; a reference with
/// no white space at all comes back unchanged.
pub proof fn lemma_wrap_unwrap(reference: Seq<char>)
    requires
        without_white_space(reference).len() > 0,
    ensures
        unwrapped(wrapped(reference)) == (true, without_white_space(reference)),
        free_of_white_space(reference) ==> unwrapped(wrapped(reference)) == (true, reference),
{
    let w = wrapped(reference);
    assert(w.subrange(0, sentinel().len() as int) =~= sentinel());
    assert(occurs_at(w, sentinel(), 0));
    assert(w.subrange(sentinel().len() as int, w.len() as int) =~= trimmed(reference));
    lemma_without_white_space_trimmed(reference);
    if free_of_white_space(reference) {
        lemma_without_white_space_identity(reference);
    }
}

/// A reference hidden behind a carrier that holds no selector is read back
/// as a reference, without white space.
pub proof fn lemma_reference_round_trip(carrier: Seq<char>, reference: Seq<char>)
    requires
        free_of_selectors(carrier),
        without_white_space(reference).len() > 0,
    ensures
        valid_utf8(hidden_bytes(encoding(carrier, encode_utf8(wrapped(reference))))),
        unwrapped(decode_utf8(hidden_bytes(encoding(carrier, encode_utf8(wrapped(reference))))))
            == (true, without_white_space(reference)),
{
    lemma_round_trip(carrier, wrapped(reference));
    lemma_wrap_unwrap(reference);
}

/// Plain text in which the marker never occurs, hidden behind a carrier that
/// holds no selector, is read back as plain text, unchanged.
pub proof fn lemma_plain_text_passthrough(carrier: Seq<char>, text: Seq<char>)
    requires
        free_of_selectors(carrier),
        forall|i: int| !occurs_at(text, sentinel(), i),
    ensures
        valid_utf8(hidden_bytes(encoding(carrier, encode_utf8(text)))),
        unwrapped(decode_utf8(hidden_bytes(encoding(carrier, encode_utf8(text))))) == (false, text),
{
    lemma_round_trip(carrier, text);
    lemma_no_occurrence(text, sentinel(), 0);
}

} // verus!
