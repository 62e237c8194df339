use starboard_bot::discord::{
    button_style_code, channel_mention, emoji_text, message_link, parse_emoji, ButtonStyle,
    ReactionEmoji,
};

#[test]
fn emoji_text_of_custom_and_unicode() {
    let kirby = ReactionEmoji::Custom {
        animated: true,
        id: 894087344909606912,
        name: Some("a_kirbyStar".to_string()),
    };
    assert_eq!(emoji_text(&kirby), "<a:a_kirbyStar:894087344909606912>");
    let still = ReactionEmoji::Custom { animated: false, id: 5, name: Some("x".to_string()) };
    assert_eq!(emoji_text(&still), "<:x:5>");
    let nameless = ReactionEmoji::Custom { animated: false, id: 5, name: None };
    assert_eq!(emoji_text(&nameless), "<::5>");
    assert_eq!(emoji_text(&ReactionEmoji::Unicode("⭐".to_string())), "⭐");
}

#[test]
fn mention_and_link() {
    assert_eq!(channel_mention(794949887028232192), "<#794949887028232192>");
    assert_eq!(message_link(3, 2, Some(1)), "https://discord.com/channels/1/2/3");
    assert_eq!(message_link(3, 2, None), "https://discord.com/channels/@me/2/3");
}

#[test]
fn button_style_numbers() {
    assert_eq!(button_style_code(ButtonStyle::Primary), 1);
    assert_eq!(button_style_code(ButtonStyle::Secondary), 2);
    assert_eq!(button_style_code(ButtonStyle::Success), 3);
    assert_eq!(button_style_code(ButtonStyle::Danger), 4);
}

#[test]
fn parse_emoji_cases() {
    assert!(parse_emoji("").is_none());
    match parse_emoji("🍎") {
        Some(ReactionEmoji::Unicode(u)) => assert_eq!(u, "🍎"),
        _ => panic!("expected a unicode emoji"),
    }
    match parse_emoji("<:customemoji:600404340292059257>") {
        Some(ReactionEmoji::Custom { animated, id, name }) => {
            assert!(!animated);
            assert_eq!(id, 600404340292059257);
            assert_eq!(name.as_deref(), Some("customemoji"));
        }
        _ => panic!("expected a custom emoji"),
    }
    match parse_emoji("<a:spin:12>") {
        Some(ReactionEmoji::Custom { animated, id, .. }) => {
            assert!(animated);
            assert_eq!(id, 12);
        }
        _ => panic!("expected a custom emoji"),
    }
    assert!(parse_emoji("<:broken").is_none());
    assert!(parse_emoji("<:zero:0>").is_none());
    assert!(parse_emoji("<:noid>").is_none());
}

#[test]
fn parsed_emoji_writes_back() {
    let e = parse_emoji("<a:a_kirbyStar:894087344909606912>").unwrap();
    assert_eq!(emoji_text(&e), "<a:a_kirbyStar:894087344909606912>");
}

fn custom_parts(s: &str) -> Option<(bool, Option<String>, u64)> {
    match parse_emoji(s) {
        Some(ReactionEmoji::Custom { animated, id, name }) => Some((animated, name, id)),
        Some(ReactionEmoji::Unicode(_)) => panic!("expected no unicode emoji for {s:?}"),
        None => None,
    }
}

#[test]
fn parse_emoji_custom_edge_cases() {
    assert_eq!(custom_parts("<<a:x:5>>"), Some((true, Some("x".to_string()), 5)));
    assert_eq!(custom_parts("<:x:5:extra>"), Some((false, Some("x".to_string()), 5)));
    assert_eq!(custom_parts("<:x:+7>"), Some((false, Some("x".to_string()), 7)));
    assert_eq!(custom_parts("<b:x:7>"), Some((false, Some("x".to_string()), 7)));
    assert_eq!(custom_parts("<a::7>"), Some((true, Some("".to_string()), 7)));
    assert_eq!(custom_parts("<x:5>"), None);
    assert_eq!(custom_parts("<a:x:0>"), None);
    assert_eq!(custom_parts("<:x:5"), None);
    assert_eq!(custom_parts("<>"), None);
    assert_eq!(custom_parts("<:x:-5>"), None);
    assert_eq!(custom_parts("<:x:18446744073709551616>"), None);
}
