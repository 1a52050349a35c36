//! What the chat layer decides from a message or a button press: which
//! attachment a message carries, how to name it, and what a button asks for.

use vstd::prelude::*;

use crate::reference::{find_first, first_occurrence, lemma_first_occurrence_occurs};
use crate::text::{chars_of, same_text, string_of_range};

verus! {

/// The file references of the media a message carries, one per kind.
#[derive(Debug, Clone)]
pub struct MessageMedia {
    /// The largest size of the photo.
    pub photo: Option<String>,
    pub video: Option<String>,
    pub audio: Option<String>,
    pub document: Option<String>,
    pub sticker: Option<String>,
    pub voice: Option<String>,
    pub video_note: Option<String>,
    pub animation: Option<String>,
}

/// The first attachment of `m`, in the order photo, video, audio, document,
/// sticker, voice, video note, animation, with the label of its kind.
pub open spec fn first_attachment(m: MessageMedia) -> Option<(Seq<char>, Seq<char>)> {
    if m.photo is Some {
        Some((m.photo->0@, "photo"@))
    } else if m.video is Some {
        Some((m.video->0@, "video"@))
    } else if m.audio is Some {
        Some((m.audio->0@, "audio"@))
    } else if m.document is Some {
        Some((m.document->0@, "document"@))
    } else if m.sticker is Some {
        Some((m.sticker->0@, "sticker"@))
    } else if m.voice is Some {
        Some((m.voice->0@, "voice"@))
    } else if m.video_note is Some {
        Some((m.video_note->0@, "video note"@))
    } else if m.animation is Some {
        Some((m.animation->0@, "animation"@))
    } else {
        None
    }
}

/// The pair `(reference, label)`.
fn attachment(id: &String, label: &'static str) -> (r: Option<(String, String)>)
    ensures
        r matches Some(p) && p.0@ == id@ && p.1@ == label@,
{
    Some((id.clone(), label.to_owned()))
}

/// The reference and kind label of the attachment a message carries, if any.
pub fn extract_file_info(media: &MessageMedia) -> (r: Option<(String, String)>)
    ensures
        match first_attachment(*media) {
            Some(p) => r matches Some(q) && q.0@ == p.0 && q.1@ == p.1,
            None => r is None,
        },
{
    if let Some(id) = &media.photo {
        return attachment(id, "photo");
    }
    if let Some(id) = &media.video {
        return attachment(id, "video");
    }
    if let Some(id) = &media.audio {
        return attachment(id, "audio");
    }
    if let Some(id) = &media.document {
        return attachment(id, "document");
    }
    if let Some(id) = &media.sticker {
        return attachment(id, "sticker");
    }
    if let Some(id) = &media.voice {
        return attachment(id, "voice");
    }
    if let Some(id) = &media.video_note {
        return attachment(id, "video note");
    }
    if let Some(id) = &media.animation {
        return attachment(id, "animation");
    }
    None
}

/// The human-readable name of a kind label.
pub open spec fn file_type_name(label: Seq<char>) -> Seq<char> {
    if label == "photo"@ {
        "photo"@
    } else if label == "video"@ {
        "video"@
    } else if label == "audio"@ {
        "audio"@
    } else if label == "document"@ {
        "document"@
    } else if label == "sticker"@ {
        "sticker"@
    } else if label == "voice"@ {
        "voice message"@
    } else if label == "video note"@ {
        "video note"@
    } else if label == "animation"@ {
        "animation"@
    } else {
        "file"@
    }
}

/// The human-readable name of a kind label; unknown labels name a file.
pub fn get_file_type_name(file_type: &str) -> (r: &'static str)
    ensures
        r@ == file_type_name(file_type@),
{
    if same_text(file_type, "photo") {
        "photo"
    } else if same_text(file_type, "video") {
        "video"
    } else if same_text(file_type, "audio") {
        "audio"
    } else if same_text(file_type, "document") {
        "document"
    } else if same_text(file_type, "sticker") {
        "sticker"
    } else if same_text(file_type, "voice") {
        "voice message"
    } else if same_text(file_type, "video note") {
        "video note"
    } else if same_text(file_type, "animation") {
        "animation"
    } else {
        "file"
    }
}

/// What a keyboard button asks for.
#[derive(Debug)]
pub enum CallbackAction {
    /// Encode with the given emoji.
    Encode(String),
    /// Encode with a randomly chosen emoji.
    Random,
    /// Wait for the user to send the emoji to encode with.
    Custom,
    /// Nothing this bot knows.
    Ignore,
}

/// Whether `r` is what the button data `d` asks for. The data is read as
/// fields separated by `:`; `encode:<emoji>` (exactly two fields), `random`
/// and `custom` (as first field) are known.
pub open spec fn callback_action(d: Seq<char>, r: CallbackAction) -> bool {
    match first_occurrence(d, seq![':']) {
        Some(p) => {
            let head = d.subrange(0, p);
            let tail = d.subrange(p + 1, d.len() as int);
            if head == "encode"@ && first_occurrence(tail, seq![':']) is None {
                r matches CallbackAction::Encode(e) && e@ == tail
            } else if head == "random"@ {
                r is Random
            } else if head == "custom"@ {
                r is Custom
            } else {
                r is Ignore
            }
        },
        None => if d == "random"@ {
            r is Random
        } else if d == "custom"@ {
            r is Custom
        } else {
            r is Ignore
        },
    }
}

/// Reads the data of a pressed button.
pub fn parse_callback_data(data: &str) -> (r: CallbackAction)
    ensures
        callback_action(data@, r),
{
    let chars = chars_of(data);
    let colon = chars_of(":");
    proof {
        reveal_strlit(":");
        assert(colon@ =~= seq![':']);
    }
    match find_first(&chars, &colon) {
        Some(p) => {
            proof {
                lemma_first_occurrence_occurs(chars@, colon@, 0);
            }
            let n = chars.len();
            assert(p + 1 <= n);
            let head = string_of_range(&chars, 0, p);
            let tail = string_of_range(&chars, p + 1, n);
            let tail_chars = chars_of(tail.as_str());
            if same_text(head.as_str(), "encode") && find_first(&tail_chars, &colon).is_none() {
                CallbackAction::Encode(tail)
            } else if same_text(head.as_str(), "random") {
                CallbackAction::Random
            } else if same_text(head.as_str(), "custom") {
                CallbackAction::Custom
            } else {
                CallbackAction::Ignore
            }
        },
        None => {
            if same_text(data, "random") {
                CallbackAction::Random
            } else if same_text(data, "custom") {
                CallbackAction::Custom
            } else {
                CallbackAction::Ignore
            }
        },
    }
}

} // verus!
