use emoji_encoder::chat::{extract_file_info, get_file_type_name, parse_callback_data, CallbackAction, MessageMedia};
use emoji_encoder::emojis::{create_emoji_keyboard, emoji_list, get_random_emoji};
use emoji_encoder::inline::{inline_choices, is_emoji_char, parse_inline_query, ChoiceKind};

fn no_media() -> MessageMedia {
    MessageMedia {
        photo: None,
        video: None,
        audio: None,
        document: None,
        sticker: None,
        voice: None,
        video_note: None,
        animation: None,
    }
}

#[test]
fn attachment_priority() {
    assert_eq!(extract_file_info(&no_media()), None);
    let mut m = no_media();
    m.animation = Some("anim".to_string());
    assert_eq!(extract_file_info(&m), Some(("anim".to_string(), "animation".to_string())));
    m.video_note = Some("note".to_string());
    assert_eq!(extract_file_info(&m), Some(("note".to_string(), "video note".to_string())));
    m.sticker = Some("stk".to_string());
    assert_eq!(extract_file_info(&m), Some(("stk".to_string(), "sticker".to_string())));
    m.photo = Some("pic".to_string());
    assert_eq!(extract_file_info(&m), Some(("pic".to_string(), "photo".to_string())));
}

#[test]
fn file_type_names() {
    assert_eq!(get_file_type_name("photo"), "photo");
    assert_eq!(get_file_type_name("voice"), "voice message");
    assert_eq!(get_file_type_name("video note"), "video note");
    assert_eq!(get_file_type_name("Photo"), "file");
    assert_eq!(get_file_type_name(""), "file");
}

#[test]
fn callback_data() {
    assert!(matches!(parse_callback_data("encode:😀"), CallbackAction::Encode(ref e) if e == "😀"));
    assert!(matches!(parse_callback_data("encode:"), CallbackAction::Encode(ref e) if e.is_empty()));
    assert!(matches!(parse_callback_data("encode:a:b"), CallbackAction::Ignore));
    assert!(matches!(parse_callback_data("encode"), CallbackAction::Ignore));
    assert!(matches!(parse_callback_data("random"), CallbackAction::Random));
    assert!(matches!(parse_callback_data("random:x"), CallbackAction::Random));
    assert!(matches!(parse_callback_data("custom"), CallbackAction::Custom));
    assert!(matches!(parse_callback_data("custom:1:2"), CallbackAction::Custom));
    assert!(matches!(parse_callback_data(""), CallbackAction::Ignore));
    assert!(matches!(parse_callback_data("other:1"), CallbackAction::Ignore));
}

#[test]
fn inline_query_parts() {
    assert_eq!(parse_inline_query("🚀  hi there "), ("🚀".to_string(), "hi there".to_string()));
    assert_eq!(parse_inline_query("🚀"), ("🚀".to_string(), String::new()));
    assert_eq!(parse_inline_query("hello"), ("😀".to_string(), "hello".to_string()));
    assert_eq!(parse_inline_query(""), ("😀".to_string(), String::new()));
    assert!(is_emoji_char('☀'));
    assert!(is_emoji_char('😀'));
    assert!(!is_emoji_char('a'));
}

#[test]
fn inline_choices_with_selection() {
    let choices = inline_choices("🚀", "🔥");
    assert_eq!(choices.len(), 23);
    assert_eq!(choices[0].kind, ChoiceKind::Selected);
    assert_eq!(choices[0].emoji, "🚀");
    assert_eq!(choices[1].kind, ChoiceKind::Random);
    assert_eq!(choices[1].emoji, "🔥");
    assert_eq!(choices[2].kind, ChoiceKind::Preset(0));
    assert!(choices.iter().skip(1).all(|c| c.emoji != "🚀"));
    assert_eq!(choices[22].kind, ChoiceKind::Preset(21));
}

#[test]
fn inline_choices_without_selection() {
    let choices = inline_choices("😀", "👍");
    assert_eq!(choices.len(), 23);
    assert_eq!(choices[0].kind, ChoiceKind::Random);
    assert_eq!(choices[1].kind, ChoiceKind::Preset(0));
    assert_eq!(choices[1].emoji, "😀");
    assert_eq!(inline_choices("", "👍").len(), 23);
}

#[test]
fn emoji_keyboard_layout() {
    let list = emoji_list();
    assert_eq!(list.len(), 22);
    assert!(list.contains(&get_random_emoji()));
    let rows = create_emoji_keyboard();
    assert_eq!(rows.len(), 5);
    assert_eq!(rows[0].len(), 5);
    assert_eq!(rows[0][0].label, "😀");
    assert_eq!(rows[0][0].data, "encode:😀");
    assert_eq!(rows[2][4].label, list[14]);
    assert_eq!(rows[3][0].data, "random");
    assert_eq!(rows[4][0].data, "custom");
    assert!(matches!(parse_callback_data(&rows[1][2].data), CallbackAction::Encode(ref e) if e == list[7]));
}
