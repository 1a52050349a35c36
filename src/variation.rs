//! The byte <-> variation-selector bijection and the carrier codec.

use vstd::prelude::*;
use vstd::utf8::*;

use crate::text::{char_from_u32, push_char, string_from_utf8};

verus! {

/// First code point of the Variation Selectors block (VS1).
pub const VARIATION_SELECTOR_START: u32 = 0xFE00;

/// Last code point of the Variation Selectors block (VS16).
pub const VARIATION_SELECTOR_END: u32 = 0xFE0F;

/// First code point of the Variation Selectors Supplement block (VS17).
pub const VARIATION_SELECTOR_SUPPLEMENT_START: u32 = 0xE0100;

/// Last code point of the Variation Selectors Supplement block (VS256).
pub const VARIATION_SELECTOR_SUPPLEMENT_END: u32 = 0xE01EF;

/// The code point that carries byte `b`.
pub open spec fn selector_code(b: u8) -> u32 {
    if b < 16 {
        (VARIATION_SELECTOR_START + b) as u32
    } else {
        (VARIATION_SELECTOR_SUPPLEMENT_START + (b - 16)) as u32
    }
}

/// The byte carried by code point `cp`, if it lies in either selector range.
pub open spec fn selector_byte(cp: u32) -> Option<u8> {
    if VARIATION_SELECTOR_START <= cp <= VARIATION_SELECTOR_END {
        Some((cp - VARIATION_SELECTOR_START) as u8)
    } else if VARIATION_SELECTOR_SUPPLEMENT_START <= cp <= VARIATION_SELECTOR_SUPPLEMENT_END {
        Some((cp - VARIATION_SELECTOR_SUPPLEMENT_START + 16) as u8)
    } else {
        None
    }
}

/// Whether `c` is a variation selector, i.e. carries a byte.
pub open spec fn is_selector(c: char) -> bool {
    selector_byte(c as u32) is Some
}

/// Every byte maps to a selector and back to itself, and no two bytes share
/// a selector.
pub proof fn lemma_selector_bijection(b: u8, d: u8)
    ensures
        selector_byte(selector_code(b)) == Some(b),
        b != d ==> selector_code(b) != selector_code(d),
{
}

/// Converts a byte to the variation selector that carries it.
pub fn to_variation_selector(byte: u8) -> (r: Result<char, EncoderError>)
    ensures
        r matches Ok(c) && c as u32 == selector_code(byte),
{
    if byte < 16 {
        match char_from_u32(VARIATION_SELECTOR_START + byte as u32) {
            Some(c) => Ok(c),
            None => Err(EncoderError::InvalidByte(byte)),
        }
    } else {
        match char_from_u32(VARIATION_SELECTOR_SUPPLEMENT_START + (byte - 16) as u32) {
            Some(c) => Ok(c),
            None => Err(EncoderError::InvalidByte(byte)),
        }
    }
}

/// Converts a code point back to the byte it carries, if it is a selector.
pub fn from_variation_selector(code_point: u32) -> (r: Option<u8>)
    ensures
        r == selector_byte(code_point),
{
    if VARIATION_SELECTOR_START <= code_point && code_point <= VARIATION_SELECTOR_END {
        Some((code_point - VARIATION_SELECTOR_START) as u8)
    } else if VARIATION_SELECTOR_SUPPLEMENT_START <= code_point
        && code_point <= VARIATION_SELECTOR_SUPPLEMENT_END {
        Some((code_point - VARIATION_SELECTOR_SUPPLEMENT_START + 16) as u8)
    } else {
        None
    }
}

/// The selector character that carries byte `b`.
pub open spec fn selector_char(b: u8) -> char {
    selector_code(b) as char
}

/// The carrier followed by one selector per payload byte, in order.
pub open spec fn encoding(carrier: Seq<char>, payload: Seq<u8>) -> Seq<char> {
    carrier + payload.map_values(|b: u8| selector_char(b))
}

/// The bytes of the run of selectors that starts at the front of `s`.
pub open spec fn selector_run(s: Seq<char>) -> Seq<u8>
    decreases s.len(),
{
    if s.len() > 0 && is_selector(s[0]) {
        seq![selector_byte(s[0] as u32)->Some_0] + selector_run(s.drop_first())
    } else {
        Seq::empty()
    }
}

/// The hidden bytes of `s`: the first run of selectors, after skipping the
/// characters that precede it.
pub open spec fn hidden_bytes(s: Seq<char>) -> Seq<u8>
    decreases s.len(),
{
    if s.len() == 0 {
        Seq::empty()
    } else if is_selector(s[0]) {
        selector_run(s)
    } else {
        hidden_bytes(s.drop_first())
    }
}

/// Each selector character carries the byte it was made from.
proof fn lemma_selector_char(b: u8)
    ensures
        selector_char(b) as u32 == selector_code(b),
        is_selector(selector_char(b)),
        selector_byte(selector_char(b) as u32) == Some(b),
{
}

/// The selectors made from `payload` carry exactly `payload`.
proof fn lemma_selector_run_of_payload(payload: Seq<u8>)
    ensures
        selector_run(payload.map_values(|b: u8| selector_char(b))) == payload,
        hidden_bytes(payload.map_values(|b: u8| selector_char(b))) == payload,
    decreases payload.len(),
{
    let sels = payload.map_values(|b: u8| selector_char(b));
    if payload.len() > 0 {
        lemma_selector_char(payload[0]);
        assert(sels.drop_first() =~= payload.drop_first().map_values(|b: u8| selector_char(b)));
        lemma_selector_run_of_payload(payload.drop_first());
        assert(payload =~= seq![payload[0]] + payload.drop_first());
    } else {
        assert(sels =~= Seq::<char>::empty());
        assert(payload =~= Seq::<u8>::empty());
    }
}

/// Characters before the first selector do not change the hidden bytes.
proof fn lemma_hidden_bytes_skip_prefix(prefix: Seq<char>, s: Seq<char>)
    requires
        forall|i: int| 0 <= i < prefix.len() ==> !is_selector(#[trigger] prefix[i]),
    ensures
        hidden_bytes(prefix + s) == hidden_bytes(s),
    decreases prefix.len(),
{
    if prefix.len() > 0 {
        assert((prefix + s).drop_first() =~= prefix.drop_first() + s);
        assert(!is_selector(prefix[0]));
        lemma_hidden_bytes_skip_prefix(prefix.drop_first(), s);
    } else {
        assert(prefix + s =~= s);
    }
}

/// Whether `s` holds no variation selector.
pub open spec fn free_of_selectors(s: Seq<char>) -> bool {
    forall|i: int| 0 <= i < s.len() ==> !is_selector(#[trigger] s[i])
}

/// Round trip: behind a carrier that holds no selector, the hidden bytes of
/// an encoding are the payload, and text encoded as UTF-8 decodes back to
/// itself.
pub proof fn lemma_round_trip(carrier: Seq<char>, text: Seq<char>)
    requires
        free_of_selectors(carrier),
    ensures
        hidden_bytes(encoding(carrier, encode_utf8(text))) == encode_utf8(text),
        valid_utf8(hidden_bytes(encoding(carrier, encode_utf8(text)))),
        decode_utf8(hidden_bytes(encoding(carrier, encode_utf8(text)))) == text,
{
    let payload = encode_utf8(text);
    lemma_hidden_bytes_skip_prefix(carrier, payload.map_values(|b: u8| selector_char(b)));
    lemma_selector_run_of_payload(payload);
    encode_utf8_valid_utf8(text);
    encode_utf8_decode_utf8(text);
}

/// An empty payload leaves the carrier exactly as it was, and a carrier that
/// holds no selector hides nothing.
pub proof fn lemma_empty_payload(carrier: Seq<char>)
    ensures
        encoding(carrier, encode_utf8(Seq::<char>::empty())) == carrier,
        free_of_selectors(carrier) ==> hidden_bytes(carrier) == Seq::<u8>::empty(),
{
    assert(encode_utf8(Seq::<char>::empty()) =~= Seq::<u8>::empty());
    assert(encoding(carrier, Seq::<u8>::empty()) =~= carrier);
    if free_of_selectors(carrier) {
        lemma_hidden_bytes_skip_prefix(carrier, Seq::<char>::empty());
        assert(carrier + Seq::<char>::empty() =~= carrier);
    }
}

/// Appends one invisible selector per UTF-8 byte of `text` to `emoji`.
pub fn encode(emoji: &str, text: &str) -> (r: Result<String, EncoderError>)
    ensures
        r matches Ok(s) && s@ == encoding(emoji@, encode_utf8(text@)),
{
    let bytes = text.as_bytes();
    let mut encoded = emoji.to_owned();
    let mut i: usize = 0;
    while i < bytes.len()
        invariant
            i <= bytes@.len(),
            bytes@ == encode_utf8(text@),
            encoded@ == encoding(emoji@, bytes@.subrange(0, i as int)),
        decreases bytes@.len() - i,
    {
        let selector = to_variation_selector(bytes[i])?;
        push_char(&mut encoded, selector);
        proof {
            char_u32_cast(selector, selector_code(bytes@[i as int]));
            let done = bytes@.subrange(0, i as int);
            assert(bytes@.subrange(0, i + 1) =~= done.push(bytes@[i as int]));
            assert(done.push(bytes@[i as int]).map_values(|b: u8| selector_char(b))
                =~= done.map_values(|b: u8| selector_char(b)).push(selector));
        }
        i += 1;
    }
    proof {
        assert(bytes@.subrange(0, i as int) =~= bytes@);
    }
    Ok(encoded)
}

/// Reads back the text hidden in the first run of selectors of `text`.
pub fn decode(text: &str) -> (r: Result<String, EncoderError>)
    ensures
        r is Ok <==> valid_utf8(hidden_bytes(text@)),
        r matches Ok(s) ==> s@ == decode_utf8(hidden_bytes(text@)),
        r matches Err(e) ==> e is Utf8Error,
{
    let mut decoded_bytes: Vec<u8> = Vec::new();
    // Set once the run of selectors has ended: later selectors are ignored.
    let mut run_ended = false;
    proof {
        assert(text@.subrange(0, text@.len() as int) =~= text@);
    }
    for ch in it: text.chars()
        invariant
            it.seq() == text@,
            run_ended ==> hidden_bytes(text@) == decoded_bytes@,
            !run_ended && decoded_bytes@.len() == 0 ==> hidden_bytes(text@) == hidden_bytes(
                text@.subrange(it.index(), text@.len() as int),
            ),
            !run_ended && decoded_bytes@.len() > 0 ==> hidden_bytes(text@) == decoded_bytes@
                + selector_run(text@.subrange(it.index(), text@.len() as int)),
    {
        let ghost rest = text@.subrange(it.index(), text@.len() as int);
        proof {
            assert(rest[0] == ch);
            assert(rest.drop_first() =~= text@.subrange(it.index() + 1, text@.len() as int));
        }
        if !run_ended {
            if let Some(byte) = from_variation_selector(ch as u32) {
                let ghost before = decoded_bytes@;
                decoded_bytes.push(byte);
                proof {
                    assert(before + selector_run(rest) =~= decoded_bytes@ + selector_run(
                        rest.drop_first(),
                    ));
                }
            } else if decoded_bytes.len() > 0 {
                run_ended = true;
                proof {
                    assert(decoded_bytes@ + selector_run(rest) =~= decoded_bytes@);
                }
            }
        }
    }
    proof {
        assert(text@.subrange(text@.len() as int, text@.len() as int) =~= Seq::<char>::empty());
        assert(decoded_bytes@ + Seq::<u8>::empty() =~= decoded_bytes@);
    }
    match string_from_utf8(decoded_bytes) {
        Ok(s) => Ok(s),
        Err(e) => Err(EncoderError::Utf8Error(e)),
    }
}

/// Whether `text` holds at least one variation selector: a cheap test of
/// whether decoding is worth trying.
pub fn has_variation_selectors(text: &str) -> (r: bool)
    ensures
        r == !free_of_selectors(text@),
{
    for ch in it: text.chars()
        invariant
            it.seq() == text@,
            free_of_selectors(text@.subrange(0, it.index())),
    {
        let code = ch as u32;
        if (VARIATION_SELECTOR_START <= code && code <= VARIATION_SELECTOR_END) || (
        VARIATION_SELECTOR_SUPPLEMENT_START <= code && code <= VARIATION_SELECTOR_SUPPLEMENT_END) {
            proof {
                assert(is_selector(text@[it.index()]));
            }
            return true;
        }
        proof {
            assert forall|i: int| 0 <= i < it.index() + 1 implies !is_selector(
                #[trigger] text@.subrange(0, it.index() + 1)[i],
            ) by {
                if i < it.index() {
                    assert(text@.subrange(0, it.index() + 1)[i] == text@.subrange(0, it.index())[i]);
                }
            }
        }
    }
    proof {
        assert(text@.subrange(0, text@.len() as int) =~= text@);
    }
    false
}

/// Errors of the carrier codec.
#[derive(Debug)]
pub enum EncoderError {
    /// A byte that no selector carries (the mapping is total, so never built).
    InvalidByte(u8),
    /// The hidden bytes are not valid UTF-8.
    Utf8Error(std::string::FromUtf8Error),
}

} // verus!
