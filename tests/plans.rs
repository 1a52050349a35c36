use emoji_encoder::chat::{CallbackAction, MessageMedia};
use emoji_encoder::plan::{
    plan_callback, plan_decode_command, plan_encode_command, plan_message, CallbackPlan, DecodePlan,
    EncodePlan, MessagePlan, Replied,
};
use emoji_encoder::state::BotState;
use emoji_encoder::{encode, encode_file_id, EncoderError, FileType, Reveal};

fn media() -> MessageMedia {
    MessageMedia {
        photo: None,
        video: None,
        audio: None,
        document: None,
        sticker: None,
        voice: None,
        video_note: None,
        animation: None,
    }
}

fn awaiting_file() -> BotState {
    BotState::AwaitingFileEmoji { file_id: "CAAD".to_string(), file_type: "sticker".to_string() }
}

#[test]
fn message_while_awaiting_emoji() {
    let state = BotState::AwaitingCustomEmoji { text: "secret".to_string() };
    assert!(matches!(plan_message(&state, true, &media(), "🔥"),
        MessagePlan::EncodeText { ref text, ref emoji } if text == "secret" && emoji == "🔥"));
    assert!(matches!(plan_message(&state, true, &media(), ""), MessagePlan::Nothing));
    assert!(matches!(plan_message(&awaiting_file(), false, &media(), "🔥"),
        MessagePlan::EncodeFile { ref file_id, ref emoji } if file_id == "CAAD" && emoji == "🔥"));
}

#[test]
fn idle_message_with_attachment() {
    let mut m = media();
    m.voice = Some("voice-id".to_string());
    assert!(matches!(plan_message(&BotState::Idle, true, &m, ""),
        MessagePlan::OfferFileKeyboard { ref kind_name } if kind_name == "voice message"));
    assert!(matches!(plan_message(&BotState::Idle, false, &m, ""), MessagePlan::Nothing));
}

#[test]
fn idle_message_with_text() {
    let hidden = encode("😀", "psst").unwrap();
    assert!(matches!(plan_message(&BotState::Idle, true, &media(), &hidden),
        MessagePlan::Show(Reveal::Text(ref t)) if t == "psst"));
    assert!(matches!(plan_message(&BotState::Idle, false, &media(), &hidden), MessagePlan::Nothing));
    assert!(matches!(plan_message(&BotState::Idle, true, &media(), "hello"), MessagePlan::OfferKeyboard));
    assert!(matches!(plan_message(&BotState::Idle, true, &media(), "x\u{E01EF}"), MessagePlan::OfferKeyboard));
    let file = encode_file_id("😀", "BAAD").unwrap();
    assert!(matches!(plan_message(&BotState::Idle, true, &media(), &file),
        MessagePlan::Show(Reveal::File { ref file_id, kind: FileType::Video }) if file_id == "BAAD"));
}

#[test]
fn decode_command_plans() {
    assert!(matches!(plan_decode_command("  ".to_string(), None), DecodePlan::AskForInput));
    assert!(matches!(plan_decode_command(" ".to_string(), Some(String::new())), DecodePlan::NoText));
    assert!(matches!(plan_decode_command("abc".to_string(), None), DecodePlan::NothingHidden));
    let hidden = encode("🌙", "moon").unwrap();
    assert!(matches!(plan_decode_command(hidden.clone(), None),
        DecodePlan::Show(Reveal::Text(ref t)) if t == "moon"));
    assert!(matches!(plan_decode_command(String::new(), Some(hidden)),
        DecodePlan::Show(Reveal::Text(ref t)) if t == "moon"));
    assert!(matches!(plan_decode_command("a\u{E01EF}".to_string(), None),
        DecodePlan::Failed(EncoderError::Utf8Error(_))));
    let file = encode_file_id("🌙", "!!").unwrap();
    assert!(matches!(plan_decode_command(file, None), DecodePlan::Show(Reveal::FileId(ref f)) if f == "!!"));
}

#[test]
fn encode_command_plans() {
    assert!(matches!(plan_encode_command(" hi ".to_string(), None), EncodePlan::Text(ref t) if t == " hi "));
    assert!(matches!(plan_encode_command("  ".to_string(), None), EncodePlan::AskForInput));
    let mut m = media();
    m.video = Some("vid".to_string());
    assert!(matches!(plan_encode_command(String::new(), Some((m, "caption".to_string()))),
        EncodePlan::File(ref f) if f == "vid"));
    assert!(matches!(plan_encode_command(String::new(), Some((media(), String::new()))), EncodePlan::NoText));
    assert!(matches!(plan_encode_command(String::new(), Some((media(), "t".to_string()))),
        EncodePlan::Text(ref t) if t == "t"));
}

#[test]
fn callback_plans() {
    let text_reply = Some(Replied { media: media(), text: Some("words".to_string()) });
    let empty_reply = Some(Replied { media: media(), text: None });
    let encode_smile = CallbackAction::Encode("😀".to_string());

    assert!(matches!(plan_callback(&encode_smile, &awaiting_file(), true, &None, "🔥"),
        CallbackPlan::EncodeFile { ref file_id, ref emoji } if file_id == "CAAD" && emoji == "😀"));
    assert!(matches!(plan_callback(&CallbackAction::Random, &BotState::Idle, true, &text_reply, "🔥"),
        CallbackPlan::EncodeText { ref text, ref emoji } if text == "words" && emoji == "🔥"));
    assert!(matches!(plan_callback(&encode_smile, &BotState::Idle, true, &empty_reply, "🔥"),
        CallbackPlan::ReplyMissing));
    assert!(matches!(plan_callback(&encode_smile, &BotState::Idle, true, &None, "🔥"),
        CallbackPlan::ReplyMissing));
    assert!(matches!(plan_callback(&encode_smile, &BotState::Idle, false, &text_reply, "🔥"),
        CallbackPlan::Nothing));
    assert!(matches!(plan_callback(&CallbackAction::Custom, &BotState::Idle, true, &text_reply, "🔥"),
        CallbackPlan::AwaitTextEmoji { ref text } if text == "words"));
    assert!(matches!(plan_callback(&CallbackAction::Custom, &awaiting_file(), true, &None, "🔥"),
        CallbackPlan::AwaitFileEmoji));
    assert!(matches!(plan_callback(&CallbackAction::Custom, &BotState::Idle, true, &empty_reply, "🔥"),
        CallbackPlan::ReplyTextMissing));
    assert!(matches!(plan_callback(&CallbackAction::Ignore, &BotState::Idle, true, &text_reply, "🔥"),
        CallbackPlan::Nothing));
}
