//! The emojis offered as carriers, and the emoji keyboard.

use vstd::prelude::*;

verus! {

/// The emojis offered as carriers, in keyboard order.
pub open spec fn emojis() -> Seq<Seq<char>> {
    seq![
        "😀"@,
        "😂"@,
        "🥰"@,
        "😎"@,
        "🤔"@,
        "👍"@,
        "👎"@,
        "👏"@,
        "😅"@,
        "🤝"@,
        "🎉"@,
        "🎂"@,
        "🍕"@,
        "❤️"@,
        "🌞"@,
        "🌙"@,
        "🔥"@,
        "💯"@,
        "🚀"@,
        "👀"@,
        "💀"@,
        "🥹"@
    ]
}

/// The emojis offered as carriers, in keyboard order.
pub fn emoji_list() -> (r: Vec<&'static str>)
    ensures
        r@.len() == emojis().len(),
        forall|i: int| 0 <= i < r@.len() ==> #[trigger] r@[i]@ == emojis()[i],
{
    let r = vec!["😀", "😂", "🥰", "😎", "🤔", "👍", "👎", "👏", "😅", "🤝", "🎉", "🎂", "🍕", "❤️", "🌞", "🌙", "🔥", "💯", "🚀", "👀", "💀", "🥹"];
    proof {
        assert(r@.len() == emojis().len());
    }
    r
}

/// Relies on rand's `rng()` and `Rng::random_range`: a value in `0..n`,
/// drawn at random; the call panics only on an empty range.
#[verifier::external_body]
fn random_below(n: usize) -> (r: usize)
    requires
        n > 0,
    ensures
        r < n,
{
    rand::Rng::random_range(&mut rand::rng(), 0..n)
}

/// One of the offered emojis, chosen at random.
pub fn get_random_emoji() -> (r: &'static str)
    ensures
        emojis().contains(r@),
{
    let list = emoji_list();
    let i = random_below(list.len());
    let r = list[i];
    assert(emojis()[i as int] == r@);
    r
}

/// A keyboard button: what it shows and the data it sends when pressed.
#[derive(Debug, Clone)]
pub struct KeyButton {
    pub label: String,
    pub data: String,
}

/// The button that shows `label` and sends `data`.
fn button(label: &str, data: &str) -> (b: KeyButton)
    ensures
        b.label@ == label@,
        b.data@ == data@,
{
    KeyButton { label: label.to_owned(), data: data.to_owned() }
}

/// The emoji keyboard: three rows of five emojis, each sending
/// `encode:<emoji>`, then a row with the random choice and a row with the
/// custom choice.
pub fn create_emoji_keyboard() -> (rows: Vec<Vec<KeyButton>>)
    ensures
        rows@.len() == 5,
        forall|r: int| 0 <= r < 3 ==> (#[trigger] rows@[r])@.len() == 5,
        forall|r: int, c: int|
            0 <= r < 3 && 0 <= c < 5 ==> (#[trigger] rows@[r]@[c]).label@ == emojis()[5 * r + c]
                && rows@[r]@[c].data@ == "encode:"@ + emojis()[5 * r + c],
        rows@[3]@.len() == 1,
        rows@[3]@[0].label@ == "🎲 Random"@,
        rows@[3]@[0].data@ == "random"@,
        rows@[4]@.len() == 1,
        rows@[4]@[0].label@ == "✏️ Custom Emoji"@,
        rows@[4]@[0].data@ == "custom"@,
{
    let list = emoji_list();
    let mut keyboard: Vec<Vec<KeyButton>> = Vec::new();
    let mut row: usize = 0;
    while row < 3
        invariant
            row <= 3,
            list@.len() == emojis().len(),
            forall|i: int| 0 <= i < list@.len() ==> #[trigger] list@[i]@ == emojis()[i],
            keyboard@.len() == row,
            forall|r: int| 0 <= r < row ==> (#[trigger] keyboard@[r])@.len() == 5,
            forall|r: int, c: int|
                0 <= r < row && 0 <= c < 5 ==> (#[trigger] keyboard@[r]@[c]).label@ == emojis()[5
                    * r + c] && keyboard@[r]@[c].data@ == "encode:"@ + emojis()[5 * r + c],
        decreases 3 - row,
    {
        let mut button_row: Vec<KeyButton> = Vec::new();
        let mut col: usize = 0;
        while col < 5
            invariant
                row < 3,
                col <= 5,
                list@.len() == emojis().len(),
                forall|i: int| 0 <= i < list@.len() ==> #[trigger] list@[i]@ == emojis()[i],
                button_row@.len() == col,
                forall|c: int|
                    0 <= c < col ==> (#[trigger] button_row@[c]).label@ == emojis()[5 * row + c]
                        && button_row@[c].data@ == "encode:"@ + emojis()[5 * row + c],
            decreases 5 - col,
        {
            let idx = row * 5 + col;
            let emoji = list[idx];
            let mut data = "encode:".to_owned();
            data.append(emoji);
            button_row.push(KeyButton { label: emoji.to_owned(), data });
            col += 1;
        }
        keyboard.push(button_row);
        row += 1;
    }
    let mut random_row: Vec<KeyButton> = Vec::new();
    random_row.push(button("🎲 Random", "random"));
    keyboard.push(random_row);
    let mut custom_row: Vec<KeyButton> = Vec::new();
    custom_row.push(button("✏️ Custom Emoji", "custom"));
    keyboard.push(custom_row);
    keyboard
}

} // verus!
