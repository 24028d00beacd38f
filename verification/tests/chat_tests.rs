use robs::chat::{
    create_mock_chat_message, messages_for_platform, mock_chat_message, ChatAggregator, ChatConfig, ChatPlatform,
    ChatTimestamp, MessageMetadata, UnifiedChatMessage,
};
use robs::events::ChatMessage;
use robs::text::contains_str;
use robs::twitch::{parse_irc_message, parse_privmsg};

fn msg(id: &str, secs: i64) -> UnifiedChatMessage {
    mock_chat_message(
        id.to_string(),
        ChatTimestamp { secs, nanos: 0 },
        ChatPlatform::YouTube,
        "chan",
        "Bob",
        "bob".to_string(),
        "hello",
    )
}

fn ids(v: &[UnifiedChatMessage]) -> Vec<String> {
    v.iter().map(|m| m.id.clone()).collect()
}

#[test]
fn platform_names_and_colours() {
    assert_eq!(ChatPlatform::Twitch.display_name(), "Twitch");
    assert_eq!(ChatPlatform::YouTube.display_name(), "YouTube");
    assert_eq!(ChatPlatform::Kick.color_hex(), "#53FC18");
    assert_eq!(ChatPlatform::Facebook.color_hex(), "#1877F2");
    assert_eq!(format!("{:?}", ChatPlatform::Trovo), ChatPlatform::Trovo.display_name());
}

#[test]
fn aggregator_drops_oldest_when_full() {
    let mut agg = ChatAggregator::new(2);
    agg.push_message(msg("a", 1));
    agg.push_message(msg("b", 2));
    agg.push_message(msg("c", 3));
    assert_eq!(ids(&agg.get_messages()), vec!["b", "c"]);
    assert_eq!(agg.latest().unwrap().id, "c");
    assert_eq!(agg.len(), 2);
}

#[test]
fn aggregator_with_zero_capacity_keeps_last() {
    let mut agg = ChatAggregator::new(0);
    agg.push_message(msg("a", 1));
    agg.push_message(msg("b", 2));
    assert_eq!(ids(&agg.get_messages()), vec!["b"]);
}

#[test]
fn messages_since_is_strict() {
    let mut agg = ChatAggregator::new(10);
    agg.push_message(msg("a", 1));
    agg.push_message(msg("b", 5));
    agg.push_message(msg("c", 9));
    let since = ChatTimestamp { secs: 5, nanos: 0 };
    assert_eq!(ids(&agg.get_messages_since(since)), vec!["c"]);
    let earlier = ChatTimestamp { secs: 4, nanos: 999_999_999 };
    assert_eq!(ids(&agg.get_messages_since(earlier)), vec!["b", "c"]);
    agg.clear();
    assert!(agg.get_messages().is_empty());
    assert!(agg.latest().is_none());
}

#[test]
fn mock_message_fields() {
    let m = create_mock_chat_message(ChatPlatform::Twitch, "chan", "MixedCase", "hi there");
    assert_eq!(m.id.len(), 36);
    assert_eq!(m.user.id, "mixedcase");
    assert_eq!(m.user.username, "mixedcase");
    assert_eq!(m.user.display_name, "MixedCase");
    assert_eq!(m.user.color.as_deref(), Some("#9146FF"));
    assert_eq!(m.content, "hi there");
    assert!(m.timestamp.secs > 0);
    let other = create_mock_chat_message(ChatPlatform::Kick, "chan", "ÄBC", "x");
    assert_eq!(other.user.id, "äbc");
    assert_eq!(other.user.color.as_deref(), Some("#333333"));
    assert_ne!(m.id, other.id);
}

#[test]
fn irc_privmsg_parsing() {
    assert_eq!(
        parse_privmsg(":nick!nick@host PRIVMSG #chan :hello world"),
        Some(("PRIVMSG".to_string(), "#chan :hello world".to_string()))
    );
    assert_eq!(
        parse_privmsg("@t nick!nick@host :hello world PRIVMSG"),
        Some(("nick".to_string(), "hello world PRIVMSG".to_string()))
    );
    assert_eq!(parse_privmsg("PING :tmi.twitch.tv"), None);
    assert_eq!(parse_privmsg("PRIVMSG"), None);
    assert_eq!(parse_privmsg("a PRIVMSG"), None);
    assert_eq!(parse_privmsg("x y::z PRIVMSG"), Some(("y::z".to_string(), "PRIVMSG".to_string())));
    assert_eq!(parse_privmsg("p PRIVMSG ::::hey"), Some(("PRIVMSG".to_string(), "hey".to_string())));
    assert!(contains_str("abcPRIVMSG", "PRIVMSG"));
    assert!(!contains_str("PRIVMS", "PRIVMSG"));
}

#[test]
fn irc_message_becomes_twitch_message() {
    let m = parse_irc_message("mychannel", "@tags SomeUser!some@host :Hi! PRIVMSG").unwrap();
    assert_eq!(m.platform, ChatPlatform::Twitch);
    assert_eq!(m.channel, "mychannel");
    assert_eq!(m.user.username, "SomeUser");
    assert_eq!(m.user.id, "someuser");
    assert_eq!(m.content, "Hi! PRIVMSG");
    assert!(m.user.color.is_none());
    assert!(parse_irc_message("mychannel", "JOIN #mychannel").is_none());
}

#[test]
fn chat_message_from_unified() {
    let mut m = msg("id1", 1234);
    m.metadata.bits = Some(50);
    m.metadata.is_mod = true;
    m.user.badges = vec!["mod".to_string()];
    let c = ChatMessage::from(m);
    assert_eq!(c.platform, "YouTube");
    assert_eq!(c.user, "Bob");
    assert_eq!(c.user_id, "bob");
    assert_eq!(c.timestamp, 1234);
    assert_eq!(c.bits, 50);
    assert_eq!(c.reply_count, 0);
    assert!(c.is_mod);
    assert_eq!(c.badges, vec!["mod".to_string()]);
}

#[test]
fn chat_defaults() {
    let c = ChatConfig::default();
    assert!(c.twitch.channel.is_empty());
    assert!(!c.twitch.connect);
    assert!(c.youtube.api_key.is_none());
    let meta = MessageMetadata::default();
    assert!(!meta.is_mod && meta.bits.is_none() && meta.custom_reward_id.is_none());
}

#[test]
fn messages_filtered_by_platform_keep_their_order() {
    let mut twitch = msg("b", 2);
    twitch.platform = ChatPlatform::Twitch;
    let mut twitch2 = msg("d", 4);
    twitch2.platform = ChatPlatform::Twitch;
    let all = vec![msg("a", 1), twitch, msg("c", 3), twitch2];
    assert_eq!(ids(&messages_for_platform(&all, Some(ChatPlatform::Twitch))), vec!["b", "d"]);
    assert_eq!(ids(&messages_for_platform(&all, Some(ChatPlatform::YouTube))), vec!["a", "c"]);
    assert_eq!(ids(&messages_for_platform(&all, Some(ChatPlatform::Kick))), Vec::<String>::new());
    assert_eq!(ids(&messages_for_platform(&all, None)), vec!["a", "b", "c", "d"]);
}
