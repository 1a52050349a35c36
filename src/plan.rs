//! The decisions of the message and command handlers, apart from sending.

use vstd::prelude::*;
use vstd::utf8::*;

use crate::chat::{extract_file_info, CallbackAction, file_type_name, first_attachment, get_file_type_name, MessageMedia};
use crate::dispatch::{classify, reveals, Reveal};
use crate::reference::{decode_with_file_check, unwrapped};
use crate::state::BotState;
use crate::text::{trim, trimmed};
use crate::variation::{free_of_selectors, has_variation_selectors, hidden_bytes, EncoderError};

verus! {

/// What to do with a message.
#[derive(Debug)]
pub enum MessagePlan {
    /// Forget the state, then hide `text` behind `emoji`.
    EncodeText { text: String, emoji: String },
    /// Forget the state, then hide the attachment `file_id` behind `emoji`.
    EncodeFile { file_id: String, emoji: String },
    /// Offer the emoji keyboard to hide the attachment, named `kind_name`.
    OfferFileKeyboard { kind_name: String },
    /// Show or re-deliver what the message hides.
    Show(Reveal),
    /// Offer the emoji keyboard to hide the text.
    OfferKeyboard,
    /// Nothing to do.
    Nothing,
}

/// Whether `r` is what a message with `text` and `media`, in a private chat
/// or not, calls for while the user is in `state`.
pub open spec fn message_plan(
    state: BotState,
    private: bool,
    media: MessageMedia,
    text: Seq<char>,
    r: MessagePlan,
) -> bool {
    match state {
        BotState::AwaitingCustomEmoji { text: pending } => if text.len() == 0 {
            r is Nothing
        } else {
            r matches MessagePlan::EncodeText { text: t, emoji } && t@ == pending@ && emoji@ == text
        },
        BotState::AwaitingFileEmoji { file_id, file_type: _ } => if text.len() == 0 {
            r is Nothing
        } else {
            r matches MessagePlan::EncodeFile { file_id: f, emoji } && f@ == file_id@ && emoji@
                == text
        },
        BotState::Idle => {
            let h = hidden_bytes(text);
            let (is_file, content) = unwrapped(decode_utf8(h));
            if private && first_attachment(media) is Some {
                let (_, label) = first_attachment(media)->Some_0;
                r matches MessagePlan::OfferFileKeyboard { kind_name } && kind_name@
                    == file_type_name(label)
            } else if text.len() == 0 {
                r is Nothing
            } else if private && !free_of_selectors(text) && valid_utf8(h) && (is_file
                || content.len() > 0) {
                r matches MessagePlan::Show(rv) && reveals(is_file, content, rv)
            } else if private {
                r is OfferKeyboard
            } else {
                r is Nothing
            }
        },
    }
}

/// Decides what a message calls for.
pub fn plan_message(state: &BotState, private: bool, media: &MessageMedia, text: &str) -> (r:
    MessagePlan)
    ensures
        message_plan(*state, private, *media, text@, r),
{
    match state {
        BotState::AwaitingCustomEmoji { text: pending } => {
            if text.is_empty() {
                MessagePlan::Nothing
            } else {
                MessagePlan::EncodeText { text: pending.clone(), emoji: text.to_owned() }
            }
        },
        BotState::AwaitingFileEmoji { file_id, file_type: _ } => {
            if text.is_empty() {
                MessagePlan::Nothing
            } else {
                MessagePlan::EncodeFile { file_id: file_id.clone(), emoji: text.to_owned() }
            }
        },
        BotState::Idle => {
            if private {
                if let Some((_file_id, file_type)) = extract_file_info(media) {
                    let name = get_file_type_name(file_type.as_str());
                    return MessagePlan::OfferFileKeyboard { kind_name: name.to_owned() };
                }
            }
            if text.is_empty() {
                return MessagePlan::Nothing;
            }
            if private && has_variation_selectors(text) {
                if let Ok((is_file, content)) = decode_with_file_check(text) {
                    if is_file {
                        return MessagePlan::Show(classify(true, content));
                    } else if !content.as_str().is_empty() {
                        return MessagePlan::Show(Reveal::Text(content));
                    }
                }
            }
            if private {
                MessagePlan::OfferKeyboard
            } else {
                MessagePlan::Nothing
            }
        },
    }
}

/// What the decode command calls for.
#[derive(Debug)]
pub enum DecodePlan {
    /// No argument and no replied message: ask for one.
    AskForInput,
    /// The text to decode is empty.
    NoText,
    /// The text hides nothing.
    NothingHidden,
    /// The hidden bytes are not text.
    Failed(EncoderError),
    /// Show or re-deliver what the text hides.
    Show(Reveal),
}

/// The text the command works on: its argument, or, where that is blank,
/// the text of the replied message.
pub open spec fn command_input(arg: Seq<char>, replied: Option<Seq<char>>) -> Option<Seq<char>> {
    if trimmed(arg).len() > 0 {
        Some(arg)
    } else {
        replied
    }
}

/// Whether `r` is what the decode command with argument `arg` calls for;
/// `replied` is the text of the replied message (empty where it has none).
pub open spec fn decode_plan(arg: Seq<char>, replied: Option<Seq<char>>, r: DecodePlan) -> bool {
    match command_input(arg, replied) {
        None => r is AskForInput,
        Some(t) => {
            let h = hidden_bytes(t);
            let (is_file, content) = unwrapped(decode_utf8(h));
            if t.len() == 0 {
                r is NoText
            } else if free_of_selectors(t) {
                r is NothingHidden
            } else if !valid_utf8(h) {
                r matches DecodePlan::Failed(e) && e is Utf8Error
            } else if content.len() == 0 {
                r is NothingHidden
            } else {
                r matches DecodePlan::Show(rv) && reveals(is_file, content, rv)
            }
        },
    }
}

/// Decides what the decode command calls for.
pub fn plan_decode_command(arg: String, replied: Option<String>) -> (r: DecodePlan)
    ensures
        decode_plan(arg@, match replied {
            Some(t) => Some(t@),
            None => None,
        }, r),
{
    let bare = trim(arg.as_str());
    let text = if bare.as_str().is_empty() {
        match replied {
            Some(t) => t,
            None => {
                return DecodePlan::AskForInput;
            },
        }
    } else {
        arg
    };
    if text.as_str().is_empty() {
        return DecodePlan::NoText;
    }
    if !has_variation_selectors(text.as_str()) {
        return DecodePlan::NothingHidden;
    }
    match decode_with_file_check(text.as_str()) {
        Ok((is_file, content)) => {
            if content.as_str().is_empty() {
                DecodePlan::NothingHidden
            } else {
                DecodePlan::Show(classify(is_file, content))
            }
        },
        Err(e) => DecodePlan::Failed(e),
    }
}

/// What the encode command calls for.
#[derive(Debug)]
pub enum EncodePlan {
    /// No argument and no replied message: ask for one.
    AskForInput,
    /// The replied message holds neither text nor an attachment.
    NoText,
    /// Hide this attachment reference.
    File(String),
    /// Hide this text.
    Text(String),
}

/// Whether `r` is what the encode command with argument `arg` calls for;
/// `replied` is the media and text (empty where it has none) of the replied
/// message.
pub open spec fn encode_plan(
    arg: Seq<char>,
    replied: Option<(MessageMedia, Seq<char>)>,
    r: EncodePlan,
) -> bool {
    if trimmed(arg).len() > 0 {
        r matches EncodePlan::Text(t) && t@ == arg
    } else {
        match replied {
            None => r is AskForInput,
            Some((media, text)) => match first_attachment(media) {
                Some((file_id, _)) => r matches EncodePlan::File(f) && f@ == file_id,
                None => if text.len() == 0 {
                    r is NoText
                } else {
                    r matches EncodePlan::Text(t) && t@ == text
                },
            },
        }
    }
}

/// Decides what the encode command calls for.
pub fn plan_encode_command(arg: String, replied: Option<(MessageMedia, String)>) -> (r: EncodePlan)
    ensures
        encode_plan(arg@, match replied {
            Some((m, t)) => Some((m, t@)),
            None => None,
        }, r),
{
    let bare = trim(arg.as_str());
    if !bare.as_str().is_empty() {
        return EncodePlan::Text(arg);
    }
    match replied {
        None => EncodePlan::AskForInput,
        Some((media, text)) => {
            if let Some((file_id, _file_type)) = extract_file_info(&media) {
                EncodePlan::File(file_id)
            } else if text.as_str().is_empty() {
                EncodePlan::NoText
            } else {
                EncodePlan::Text(text)
            }
        },
    }
}

/// What a pressed button calls for.
#[derive(Debug)]
pub enum CallbackPlan {
    /// Forget the state, then hide the attachment `file_id` behind `emoji`.
    EncodeFile { file_id: String, emoji: String },
    /// Hide `text` behind `emoji`.
    EncodeText { text: String, emoji: String },
    /// Wait for a custom emoji for the attachment being hidden.
    AwaitFileEmoji,
    /// Wait for a custom emoji to hide `text` behind.
    AwaitTextEmoji { text: String },
    /// The replied message holds neither an attachment nor text.
    ReplyMissing,
    /// There is no replied text to hide.
    ReplyTextMissing,
    /// Nothing to do.
    Nothing,
}

/// The replied message of a button's message: its media and its text.
pub struct Replied {
    pub media: MessageMedia,
    pub text: Option<String>,
}

/// Whether `r` is what pressing a button with `action` calls for. `state` is
/// the user's; `has_message` tells whether the button's message is still
/// there, `replied` what it replies to; `random_emoji` stands in for a
/// randomly chosen emoji.
pub open spec fn callback_plan(
    action: CallbackAction,
    state: BotState,
    has_message: bool,
    replied: Option<Replied>,
    random_emoji: Seq<char>,
    r: CallbackPlan,
) -> bool {
    let emoji = match action {
        CallbackAction::Encode(e) => e@,
        _ => random_emoji,
    };
    match action {
        CallbackAction::Encode(_) | CallbackAction::Random => if !has_message {
            r is Nothing
        } else {
            match state {
                BotState::AwaitingFileEmoji { file_id, file_type: _ } => (r matches CallbackPlan::EncodeFile { file_id: f, emoji: e }
                    && f@ == file_id@ && e@ == emoji),
                _ => match replied {
                    None => r is ReplyMissing,
                    Some(rep) => match first_attachment(rep.media) {
                        Some((file_id, _)) => (r matches CallbackPlan::EncodeFile { file_id: f, emoji: e }
                            && f@ == file_id && e@ == emoji),
                        None => match rep.text {
                            Some(t) => (r matches CallbackPlan::EncodeText { text, emoji: e } && text@
                                == t@ && e@ == emoji),
                            None => r is ReplyMissing,
                        },
                    },
                },
            }
        },
        CallbackAction::Custom => if !has_message {
            r is Nothing
        } else {
            match state {
                BotState::AwaitingFileEmoji { .. } => r is AwaitFileEmoji,
                _ => match replied {
                    Some(rep) if rep.text is Some => (r matches CallbackPlan::AwaitTextEmoji { text }
                        && text@ == rep.text->0@),
                    _ => r is ReplyTextMissing,
                },
            }
        },
        CallbackAction::Ignore => r is Nothing,
    }
}

/// Decides what pressing a button calls for.
pub fn plan_callback(
    action: &CallbackAction,
    state: &BotState,
    has_message: bool,
    replied: &Option<Replied>,
    random_emoji: &str,
) -> (r: CallbackPlan)
    ensures
        callback_plan(*action, *state, has_message, *replied, random_emoji@, r),
{
    let emoji = match action {
        CallbackAction::Encode(e) => e.clone(),
        CallbackAction::Random => random_emoji.to_owned(),
        CallbackAction::Custom => {
            if !has_message {
                return CallbackPlan::Nothing;
            }
            if let BotState::AwaitingFileEmoji { .. } = state {
                return CallbackPlan::AwaitFileEmoji;
            }
            if let Some(rep) = replied {
                if let Some(text) = &rep.text {
                    return CallbackPlan::AwaitTextEmoji { text: text.clone() };
                }
            }
            return CallbackPlan::ReplyTextMissing;
        },
        CallbackAction::Ignore => {
            return CallbackPlan::Nothing;
        },
    };
    if !has_message {
        return CallbackPlan::Nothing;
    }
    if let BotState::AwaitingFileEmoji { file_id, .. } = state {
        return CallbackPlan::EncodeFile { file_id: file_id.clone(), emoji };
    }
    match replied {
        None => CallbackPlan::ReplyMissing,
        Some(rep) => {
            if let Some((file_id, _file_type)) = extract_file_info(&rep.media) {
                CallbackPlan::EncodeFile { file_id, emoji }
            } else if let Some(text) = &rep.text {
                CallbackPlan::EncodeText { text: text.clone(), emoji }
            } else {
                CallbackPlan::ReplyMissing
            }
        },
    }
}

} // verus!
