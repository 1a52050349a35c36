//! Reading an inline query: an optional leading emoji, then the text.

use vstd::prelude::*;

use crate::emojis::{emoji_list, emojis};
use crate::text::{chars_of, same_text, string_of_range, trim, trimmed};

verus! {

/// The carrier used when a query does not start with one.
pub const DEFAULT_EMOJI: &'static str = "😀";

/// Whether code point `u` lies in the emoji ranges a query may start with.
pub open spec fn is_emoji_code(u: u32) -> bool {
    ||| 0x1F300 <= u <= 0x1F9FF
    ||| 0x2600 <= u <= 0x27BF
    ||| 0x1F600 <= u <= 0x1F64F
}

/// Whether `c` is taken as a leading emoji of a query.
pub fn is_emoji_char(c: char) -> (r: bool)
    ensures
        r == is_emoji_code(c as u32),
{
    let code = c as u32;
    (0x1F300 <= code && code <= 0x1F9FF) || (0x2600 <= code && code <= 0x27BF) || (0x1F600
        <= code && code <= 0x1F64F)
}

/// The carrier and the text of a query: a leading emoji and the trimmed
/// rest, or the default carrier and the whole query.
pub open spec fn split_query(q: Seq<char>) -> (Seq<char>, Seq<char>) {
    if q.len() == 0 {
        (seq!['😀'], Seq::empty())
    } else if is_emoji_code(q[0] as u32) {
        (seq![q[0]], trimmed(q.drop_first()))
    } else {
        (seq!['😀'], q)
    }
}

/// Splits an inline query into the carrier to use and the text to hide.
pub fn parse_inline_query(query: &str) -> (r: (String, String))
    ensures
        r.0@ == split_query(query@).0,
        r.1@ == split_query(query@).1,
{
    let chars = chars_of(query);
    proof {
        reveal_strlit("😀");
    }
    if chars.len() == 0 {
        return (DEFAULT_EMOJI.to_owned(), String::new());
    }
    let first_char = chars[0];
    if is_emoji_char(first_char) {
        let emoji = string_of_range(&chars, 0, 1);
        let rest = string_of_range(&chars, 1, chars.len());
        let text = trim(rest.as_str());
        proof {
            assert(rest@ =~= query@.drop_first());
            assert(emoji@ =~= seq![query@[0]]);
        }
        return (emoji, text);
    }
    (DEFAULT_EMOJI.to_owned(), query.to_owned())
}

/// Where an inline result's carrier comes from.
#[derive(Debug, Clone, Copy, PartialEq, Eq, Structural)]
pub enum ChoiceKind {
    /// The emoji the query starts with.
    Selected,
    /// A randomly chosen emoji.
    Random,
    /// The offered emoji at this index.
    Preset(usize),
}

/// One inline result: where its carrier comes from, and the carrier.
#[derive(Debug, Clone)]
pub struct InlineChoice {
    pub kind: ChoiceKind,
    pub emoji: String,
}

/// The most results an inline answer may hold.
pub const MAX_INLINE_RESULTS: usize = 50;

/// The emoji a query selected, where it is not empty and not the default.
pub open spec fn selection(selected: Seq<char>) -> Option<Seq<char>> {
    if selected.len() > 0 && selected != "😀"@ {
        Some(selected)
    } else {
        None
    }
}

/// The indices below `n` of the offered emojis other than `skip`.
pub open spec fn kept_presets(skip: Option<Seq<char>>, n: int) -> Seq<int>
    decreases n,
{
    if n <= 0 {
        Seq::empty()
    } else if skip == Some(emojis()[n - 1]) {
        kept_presets(skip, n - 1)
    } else {
        kept_presets(skip, n - 1).push(n - 1)
    }
}

proof fn lemma_kept_presets_bounds(skip: Option<Seq<char>>, n: int)
    requires
        0 <= n,
    ensures
        kept_presets(skip, n).len() <= n,
        forall|j: int| 0 <= j < kept_presets(skip, n).len() ==> 0 <= #[trigger] kept_presets(skip, n)[j] < n,
    decreases n,
{
    if n > 0 {
        lemma_kept_presets_bounds(skip, n - 1);
    }
}

/// The carriers to offer for an inline query, in order: the selected emoji
/// (if any), then `random_emoji`, then every offered emoji but the selected
/// one.
pub fn inline_choices(selected: &str, random_emoji: &str) -> (r: Vec<InlineChoice>)
    ensures
        ({
            let skip = selection(selected@);
            let off: int = if skip is Some { 1 } else { 0 };
            let kept = kept_presets(skip, emojis().len() as int);
            &&& r@.len() == off + 1 + kept.len()
            &&& r@.len() <= MAX_INLINE_RESULTS
            &&& skip is Some ==> r@[0].kind == ChoiceKind::Selected && r@[0].emoji@ == selected@
            &&& r@[off].kind == ChoiceKind::Random && r@[off].emoji@ == random_emoji@
            &&& forall|k: int|
                off + 1 <= k < r@.len() ==> (#[trigger] r@[k]).kind == ChoiceKind::Preset(
                    kept[k - off - 1] as usize,
                ) && r@[k].emoji@ == emojis()[kept[k - off - 1]]
        }),
{
    let ghost skip = selection(selected@);
    let ghost off: int = if skip is Some { 1 } else { 0 };
    proof {
        reveal_strlit("😀");
    }
    let has_selection = !selected.is_empty() && !same_text(selected, DEFAULT_EMOJI);
    let mut results: Vec<InlineChoice> = Vec::new();
    if has_selection {
        results.push(InlineChoice { kind: ChoiceKind::Selected, emoji: selected.to_owned() });
    }
    results.push(InlineChoice { kind: ChoiceKind::Random, emoji: random_emoji.to_owned() });
    let list = emoji_list();
    let mut idx: usize = 0;
    while idx < list.len() && results.len() < MAX_INLINE_RESULTS
        invariant
            has_selection == (skip is Some),
            skip == selection(selected@),
            off == if skip is Some { 1int } else { 0int },
            idx <= list@.len(),
            list@.len() == emojis().len(),
            forall|i: int| 0 <= i < list@.len() ==> #[trigger] list@[i]@ == emojis()[i],
            results@.len() == off + 1 + kept_presets(skip, idx as int).len(),
            skip is Some ==> results@[0].kind == ChoiceKind::Selected && results@[0].emoji@
                == selected@,
            results@[off].kind == ChoiceKind::Random && results@[off].emoji@ == random_emoji@,
            forall|k: int|
                off + 1 <= k < results@.len() ==> (#[trigger] results@[k]).kind
                    == ChoiceKind::Preset(kept_presets(skip, idx as int)[k - off - 1] as usize)
                    && results@[k].emoji@ == emojis()[kept_presets(skip, idx as int)[k - off - 1]],
        decreases list@.len() - idx,
    {
        proof {
            lemma_kept_presets_bounds(skip, idx as int);
        }
        let preset = list[idx];
        let skipped = has_selection && same_text(preset, selected);
        let ghost before = results@;
        let ghost kept = kept_presets(skip, idx as int);
        assert(kept_presets(skip, idx + 1) == if skip == Some(emojis()[idx as int]) {
            kept
        } else {
            kept.push(idx as int)
        });
        if !skipped {
            results.push(InlineChoice { kind: ChoiceKind::Preset(idx), emoji: preset.to_owned() });
            assert(forall|j: int| 0 <= j < before.len() ==> results@[j] == before[j]);
        }
        idx += 1;
    }
    proof {
        lemma_kept_presets_bounds(skip, idx as int);
        if idx < list@.len() {
            assert(false);
        }
    }
    results
}

} // verus!
