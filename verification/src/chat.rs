use vstd::prelude::*;
use std::collections::VecDeque;
use crate::text::{lowercase_of, owned, str_eq, to_lowercase};

verus! {

/// A streaming platform whose chat is read.
#[derive(Clone, Copy, Debug, PartialEq, Eq, Structural, Hash)]
pub enum ChatPlatform {
    Twitch,
    YouTube,
    Facebook,
    Trovo,
    Kick,
}

/// The name of a platform (also how `{:?}` prints it).
pub open spec fn platform_name(p: ChatPlatform) -> Seq<char> {
    match p {
        ChatPlatform::Twitch => "Twitch"@,
        ChatPlatform::YouTube => "YouTube"@,
        ChatPlatform::Facebook => "Facebook"@,
        ChatPlatform::Trovo => "Trovo"@,
        ChatPlatform::Kick => "Kick"@,
    }
}

/// The brand colour of a platform.
pub open spec fn platform_color(p: ChatPlatform) -> Seq<char> {
    match p {
        ChatPlatform::Twitch => "#9146FF"@,
        ChatPlatform::YouTube => "#FF0000"@,
        ChatPlatform::Facebook => "#1877F2"@,
        ChatPlatform::Trovo => "#34EB8B"@,
        ChatPlatform::Kick => "#53FC18"@,
    }
}

impl ChatPlatform {
    pub fn display_name(&self) -> (r: &'static str)
        ensures
            r@ == platform_name(*self),
    {
        match self {
            ChatPlatform::Twitch => "Twitch",
            ChatPlatform::YouTube => "YouTube",
            ChatPlatform::Facebook => "Facebook",
            ChatPlatform::Trovo => "Trovo",
            ChatPlatform::Kick => "Kick",
        }
    }

    pub fn color_hex(&self) -> (r: &'static str)
        ensures
            r@ == platform_color(*self),
    {
        match self {
            ChatPlatform::Twitch => "#9146FF",
            ChatPlatform::YouTube => "#FF0000",
            ChatPlatform::Facebook => "#1877F2",
            ChatPlatform::Trovo => "#34EB8B",
            ChatPlatform::Kick => "#53FC18",
        }
    }
}

/// A point in time in UTC: seconds since the Unix epoch and the nanoseconds
/// past that second (beyond 999,999,999 only during a leap second).
#[derive(Clone, Copy, Debug, PartialEq, Eq, Structural, Hash)]
pub struct ChatTimestamp {
    pub secs: i64,
    pub nanos: u32,
}

/// Whether `a` is strictly later than `b`.
pub open spec fn later_than(a: ChatTimestamp, b: ChatTimestamp) -> bool {
    a.secs > b.secs || (a.secs == b.secs && a.nanos > b.nanos)
}

impl ChatTimestamp {
    /// Whether this instant is strictly later than `other`.
    pub fn is_after(&self, other: &ChatTimestamp) -> (r: bool)
        ensures
            r == later_than(*self, *other),
    {
        self.secs > other.secs || (self.secs == other.secs && self.nanos > other.nanos)
    }
}

/// The current time in UTC, as chrono's `From<SystemTime>` converts the
/// system clock's reading (before the epoch too): seconds since the epoch and
/// the nanoseconds past them. It depends on the clock; all that holds of every
/// reading is that the nanoseconds stay below two seconds' worth.
#[verifier::external_body]
pub(crate) fn utc_now() -> (r: ChatTimestamp)
    ensures
        r.nanos < 2_000_000_000,
{
    let now = chrono::DateTime::<chrono::Utc>::from(std::time::SystemTime::now());
    ChatTimestamp { secs: now.timestamp(), nanos: now.timestamp_subsec_nanos() }
}

/// `uuid::Uuid::new_v4` written with `to_string`: a random identifier in its
/// hyphenated form, 36 characters long.
#[verifier::external_body]
pub(crate) fn new_message_id() -> (r: String)
    ensures
        r@.len() == 36,
{
    uuid::Uuid::new_v4().to_string()
}

/// An optional string, copied.
pub fn clone_opt_string(s: &Option<String>) -> (r: Option<String>)
    ensures
        opt_view(*s) == opt_view(r),
{
    match s {
        Some(x) => Some(x.clone()),
        None => None,
    }
}

/// The characters of an optional string.
pub open spec fn opt_view(s: Option<String>) -> Option<Seq<char>> {
    match s {
        Some(x) => Some(x@),
        None => None,
    }
}

/// A list of strings, copied.
pub fn clone_strings(v: &Vec<String>) -> (r: Vec<String>)
    ensures
        crate::names::string_views(r@) == crate::names::string_views(v@),
{
    let mut r: Vec<String> = Vec::new();
    let mut i: usize = 0;
    while i < v.len()
        invariant
            i <= v.len(),
            r@.len() == i,
            forall|k: int| 0 <= k < i ==> #[trigger] r@[k]@ == v@[k]@,
        decreases v.len() - i,
    {
        let x = v[i].clone();
        r.push(x);
        i = i + 1;
    }
    assert(crate::names::string_views(r@) =~= crate::names::string_views(v@));
    r
}

/// Who wrote a chat message.
#[derive(Debug)]
pub struct ChatUser {
    pub id: String,
    pub username: String,
    pub display_name: String,
    pub color: Option<String>,
    pub badges: Vec<String>,
    pub profile_image_url: Option<String>,
}

/// Mathematical value of a chat user.
pub struct ChatUserView {
    pub id: Seq<char>,
    pub username: Seq<char>,
    pub display_name: Seq<char>,
    pub color: Option<Seq<char>>,
    pub badges: Seq<Seq<char>>,
    pub profile_image_url: Option<Seq<char>>,
}

impl View for ChatUser {
    type V = ChatUserView;

    open spec fn view(&self) -> ChatUserView {
        ChatUserView {
            id: self.id@,
            username: self.username@,
            display_name: self.display_name@,
            color: opt_view(self.color),
            badges: crate::names::string_views(self.badges@),
            profile_image_url: opt_view(self.profile_image_url),
        }
    }
}

impl Clone for ChatUser {
    fn clone(&self) -> (r: Self)
        ensures
            r@ == self@,
    {
        ChatUser {
            id: self.id.clone(),
            username: self.username.clone(),
            display_name: self.display_name.clone(),
            color: clone_opt_string(&self.color),
            badges: clone_strings(&self.badges),
            profile_image_url: clone_opt_string(&self.profile_image_url),
        }
    }
}

/// Flags and extras of a chat message.
#[derive(Debug)]
pub struct MessageMetadata {
    pub is_mod: bool,
    pub is_subscriber: bool,
    pub is_vip: bool,
    pub is_broadcaster: bool,
    pub is_first_message: bool,
    pub is_highlighted: bool,
    pub bits: Option<u32>,
    pub reply_count: Option<u32>,
    pub custom_reward_id: Option<String>,
}

/// Mathematical value of message metadata.
pub struct MetadataView {
    pub is_mod: bool,
    pub is_subscriber: bool,
    pub is_vip: bool,
    pub is_broadcaster: bool,
    pub is_first_message: bool,
    pub is_highlighted: bool,
    pub bits: Option<u32>,
    pub reply_count: Option<u32>,
    pub custom_reward_id: Option<Seq<char>>,
}

impl View for MessageMetadata {
    type V = MetadataView;

    open spec fn view(&self) -> MetadataView {
        MetadataView {
            is_mod: self.is_mod,
            is_subscriber: self.is_subscriber,
            is_vip: self.is_vip,
            is_broadcaster: self.is_broadcaster,
            is_first_message: self.is_first_message,
            is_highlighted: self.is_highlighted,
            bits: self.bits,
            reply_count: self.reply_count,
            custom_reward_id: opt_view(self.custom_reward_id),
        }
    }
}

/// Metadata with no flag set and no extras.
pub open spec fn plain_metadata() -> MetadataView {
    MetadataView {
        is_mod: false,
        is_subscriber: false,
        is_vip: false,
        is_broadcaster: false,
        is_first_message: false,
        is_highlighted: false,
        bits: None,
        reply_count: None,
        custom_reward_id: None,
    }
}

impl Default for MessageMetadata {
    fn default() -> (r: MessageMetadata)
        ensures
            r@ == plain_metadata(),
    {
        MessageMetadata {
            is_mod: false,
            is_subscriber: false,
            is_vip: false,
            is_broadcaster: false,
            is_first_message: false,
            is_highlighted: false,
            bits: None,
            reply_count: None,
            custom_reward_id: None,
        }
    }
}

impl Clone for MessageMetadata {
    fn clone(&self) -> (r: Self)
        ensures
            r@ == self@,
    {
        MessageMetadata {
            is_mod: self.is_mod,
            is_subscriber: self.is_subscriber,
            is_vip: self.is_vip,
            is_broadcaster: self.is_broadcaster,
            is_first_message: self.is_first_message,
            is_highlighted: self.is_highlighted,
            bits: self.bits,
            reply_count: self.reply_count,
            custom_reward_id: clone_opt_string(&self.custom_reward_id),
        }
    }
}

/// A chat message from any platform.
#[derive(Debug)]
pub struct UnifiedChatMessage {
    pub id: String,
    pub platform: ChatPlatform,
    pub channel: String,
    pub user: ChatUser,
    pub content: String,
    pub timestamp: ChatTimestamp,
    pub metadata: MessageMetadata,
}

/// Mathematical value of a chat message.
pub struct UnifiedMessageView {
    pub id: Seq<char>,
    pub platform: ChatPlatform,
    pub channel: Seq<char>,
    pub user: ChatUserView,
    pub content: Seq<char>,
    pub timestamp: ChatTimestamp,
    pub metadata: MetadataView,
}

impl View for UnifiedChatMessage {
    type V = UnifiedMessageView;

    open spec fn view(&self) -> UnifiedMessageView {
        UnifiedMessageView {
            id: self.id@,
            platform: self.platform,
            channel: self.channel@,
            user: self.user@,
            content: self.content@,
            timestamp: self.timestamp,
            metadata: self.metadata@,
        }
    }
}

impl Clone for UnifiedChatMessage {
    fn clone(&self) -> (r: Self)
        ensures
            r@ == self@,
    {
        UnifiedChatMessage {
            id: self.id.clone(),
            platform: self.platform,
            channel: self.channel.clone(),
            user: self.user.clone(),
            content: self.content.clone(),
            timestamp: self.timestamp,
            metadata: self.metadata.clone(),
        }
    }
}

/// The views of a list of messages.
pub open spec fn message_views(s: Seq<UnifiedChatMessage>) -> Seq<UnifiedMessageView> {
    s.map_values(|m: UnifiedChatMessage| m@)
}

/// The colour that mock messages give their author.
pub open spec fn mock_color(p: ChatPlatform) -> Seq<char> {
    match p {
        ChatPlatform::Twitch => "#9146FF"@,
        ChatPlatform::YouTube => "#FF0000"@,
        _ => "#333333"@,
    }
}

/// A message written by `user` in `channel`, as the mock generator builds it
/// once an identifier, the time and the lower-cased user name are known.
pub fn mock_chat_message(
    id: String,
    timestamp: ChatTimestamp,
    platform: ChatPlatform,
    channel: &str,
    user: &str,
    user_lower: String,
    content: &str,
) -> (r: UnifiedChatMessage)
    ensures
        r@.id == id@,
        r@.platform == platform,
        r@.channel == channel@,
        r@.user.id == user_lower@,
        r@.user.username == user_lower@,
        r@.user.display_name == user@,
        r@.user.color == Some(mock_color(platform)),
        r@.user.badges.len() == 0,
        r@.user.profile_image_url is None,
        r@.content == content@,
        r@.timestamp == timestamp,
        r@.metadata == plain_metadata(),
{
    let color = match platform {
        ChatPlatform::Twitch => owned("#9146FF"),
        ChatPlatform::YouTube => owned("#FF0000"),
        _ => owned("#333333"),
    };
    let username = user_lower.clone();
    let r = UnifiedChatMessage {
        id,
        platform,
        channel: owned(channel),
        user: ChatUser {
            id: user_lower,
            username,
            display_name: owned(user),
            color: Some(color),
            badges: Vec::new(),
            profile_image_url: None,
        },
        content: owned(content),
        timestamp,
        metadata: MessageMetadata::default(),
    };
    assert(r@.user.badges =~= Seq::<Seq<char>>::empty());
    r
}

/// A mock chat message for testing the chat view, with a fresh identifier
/// and the current time.
pub fn create_mock_chat_message(platform: ChatPlatform, channel: &str, user: &str, content: &str) -> (r:
    UnifiedChatMessage)
    ensures
        r@.id.len() == 36,
        r@.platform == platform,
        r@.channel == channel@,
        r@.user.id == lowercase_of(user@),
        r@.user.username == lowercase_of(user@),
        r@.user.display_name == user@,
        r@.user.color == Some(mock_color(platform)),
        r@.user.badges.len() == 0,
        r@.user.profile_image_url is None,
        r@.content == content@,
        r@.metadata == plain_metadata(),
{
    let id = new_message_id();
    let lower = to_lowercase(user);
    let now = utc_now();
    mock_chat_message(id, now, platform, channel, user, lower, content)
}

/// The chat settings of the studio.
#[derive(Debug)]
pub struct ChatConfig {
    pub twitch: TwitchConfig,
    pub youtube: YouTubeConfig,
}

/// Twitch chat settings.
#[derive(Clone, Debug)]
pub struct TwitchConfig {
    pub channel: String,
    pub oauth_token: Option<String>,
    pub username: Option<String>,
    pub connect: bool,
}

/// YouTube chat settings.
#[derive(Clone, Debug)]
pub struct YouTubeConfig {
    pub channel_id: String,
    pub api_key: Option<String>,
    pub live_chat_id: Option<String>,
    pub connect: bool,
}

impl Default for TwitchConfig {
    /// No channel, no credentials, not connecting.
    fn default() -> (r: TwitchConfig)
        ensures
            r.channel@ == Seq::<char>::empty(),
            r.oauth_token is None,
            r.username is None,
            !r.connect,
    {
        TwitchConfig { channel: String::new(), oauth_token: None, username: None, connect: false }
    }
}

impl Default for YouTubeConfig {
    /// No channel, no credentials, not connecting.
    fn default() -> (r: YouTubeConfig)
        ensures
            r.channel_id@ == Seq::<char>::empty(),
            r.api_key is None,
            r.live_chat_id is None,
            !r.connect,
    {
        YouTubeConfig { channel_id: String::new(), api_key: None, live_chat_id: None, connect: false }
    }
}

impl Default for ChatConfig {
    /// Both platforms at their defaults.
    fn default() -> (r: ChatConfig)
        ensures
            r.twitch.channel@ == Seq::<char>::empty(),
            r.twitch.oauth_token is None,
            r.twitch.username is None,
            !r.twitch.connect,
            r.youtube.channel_id@ == Seq::<char>::empty(),
            r.youtube.api_key is None,
            r.youtube.live_chat_id is None,
            !r.youtube.connect,
    {
        ChatConfig { twitch: TwitchConfig::default(), youtube: YouTubeConfig::default() }
    }
}

/// The messages kept after `push` onto `buf` with room for `max`: when the
/// buffer is full (or `max` is 0) the oldest message leaves first.
pub open spec fn pushed(buf: Seq<UnifiedMessageView>, max: nat, m: UnifiedMessageView) -> Seq<
    UnifiedMessageView,
> {
    if buf.len() >= max && buf.len() > 0 {
        buf.drop_first().push(m)
    } else {
        buf.push(m)
    }
}

/// Whether a message is shown under a platform filter (`None` shows all).
pub open spec fn shown_for(m: UnifiedMessageView, p: Option<ChatPlatform>) -> bool {
    p is None || m.platform == p->0
}

/// The messages of `s` that a platform filter shows, in order.
pub open spec fn messages_shown(s: Seq<UnifiedMessageView>, p: Option<ChatPlatform>) -> Seq<UnifiedMessageView> {
    s.filter(|m: UnifiedMessageView| shown_for(m, p))
}

/// Copies of the messages that a platform filter shows (all of them when
/// the filter is `None`), in their order.
pub fn messages_for_platform(msgs: &[UnifiedChatMessage], p: Option<ChatPlatform>) -> (r: Vec<UnifiedChatMessage>)
    ensures
        message_views(r@) == messages_shown(message_views(msgs@), p),
{
    let mut r: Vec<UnifiedChatMessage> = Vec::new();
    let n = msgs.len();
    let ghost all = message_views(msgs@);
    let mut i: usize = 0;
    while i < n
        invariant
            n == msgs@.len(),
            i <= n,
            all == message_views(msgs@),
            message_views(r@) == messages_shown(all.subrange(0, i as int), p),
        decreases n - i,
    {
        let m = &msgs[i];
        proof {
            assert(all.subrange(0, i + 1).drop_last() =~= all.subrange(0, i as int));
            assert(all.subrange(0, i + 1).last() == m@);
            reveal(Seq::filter);
        }
        let show = match p {
            None => true,
            Some(q) => m.platform == q,
        };
        if show {
            r.push(m.clone());
            assert(message_views(r@) =~= messages_shown(all.subrange(0, i + 1), p));
        } else {
            assert(message_views(r@) =~= messages_shown(all.subrange(0, i + 1), p));
        }
        i = i + 1;
    }
    assert(all.subrange(0, n as int) =~= all);
    r
}

/// The messages of `s` strictly later than `since`, in order.
pub open spec fn messages_after(s: Seq<UnifiedMessageView>, since: ChatTimestamp) -> Seq<
    UnifiedMessageView,
> {
    s.filter(|m: UnifiedMessageView| later_than(m.timestamp, since))
}

/// The most recent chat messages of all platforms, oldest first, at most
/// `max_messages` of them (at least the last one).
pub struct ChatAggregator {
    message_buffer: VecDeque<UnifiedChatMessage>,
    max_messages: usize,
}

impl ChatAggregator {
    /// The messages held, oldest first.
    pub closed spec fn messages(&self) -> Seq<UnifiedMessageView> {
        message_views(self.message_buffer@)
    }

    /// How many messages are kept.
    pub closed spec fn capacity(&self) -> nat {
        self.max_messages as nat
    }

    /// An empty history keeping up to `max_messages` messages.
    pub fn new(max_messages: usize) -> (r: ChatAggregator)
        ensures
            r.messages() == Seq::<UnifiedMessageView>::empty(),
            r.capacity() == max_messages,
    {
        let r = ChatAggregator { message_buffer: VecDeque::new(), max_messages };
        assert(r.messages() =~= Seq::<UnifiedMessageView>::empty());
        r
    }

    /// Appends a message, dropping the oldest when the history is full.
    pub fn push_message(&mut self, message: UnifiedChatMessage)
        ensures
            final(self).messages() == pushed(old(self).messages(), old(self).capacity(), message@),
            final(self).capacity() == old(self).capacity(),
    {
        let ghost before = self.message_buffer@;
        if self.message_buffer.len() >= self.max_messages {
            let _ = self.message_buffer.pop_front();
        }
        self.message_buffer.push_back(message);
        proof {
            if before.len() >= self.max_messages && before.len() > 0 {
                assert(message_views(self.message_buffer@) =~= message_views(before).drop_first().push(
                    message@,
                ));
            } else {
                assert(message_views(self.message_buffer@) =~= message_views(before).push(message@));
            }
        }
    }

    /// The latest message, if any.
    pub fn latest(&self) -> (r: Option<&UnifiedChatMessage>)
        ensures
            self.messages().len() == 0 ==> r is None,
            self.messages().len() > 0 ==> (r matches Some(m) && m@ == self.messages().last()),
    {
        let n = self.message_buffer.len();
        if n == 0 {
            None
        } else {
            Some(&self.message_buffer[n - 1])
        }
    }

    /// Copies of the messages, oldest first.
    pub fn get_messages(&self) -> (r: Vec<UnifiedChatMessage>)
        ensures
            message_views(r@) == self.messages(),
    {
        let mut r: Vec<UnifiedChatMessage> = Vec::new();
        let n = self.message_buffer.len();
        let mut i: usize = 0;
        while i < n
            invariant
                n == self.message_buffer@.len(),
                i <= n,
                r@.len() == i,
                message_views(r@) == message_views(self.message_buffer@).subrange(0, i as int),
            decreases n - i,
        {
            let m = self.message_buffer[i].clone();
            assert(m@ == self.message_buffer@[i as int]@);
            r.push(m);
            assert(message_views(r@) =~= message_views(self.message_buffer@).subrange(0, i + 1));
            i = i + 1;
        }
        assert(message_views(self.message_buffer@).subrange(0, n as int) =~= self.messages());
        r
    }

    /// Copies of the messages strictly later than `since`, oldest first.
    pub fn get_messages_since(&self, since: ChatTimestamp) -> (r: Vec<UnifiedChatMessage>)
        ensures
            message_views(r@) == messages_after(self.messages(), since),
    {
        let mut r: Vec<UnifiedChatMessage> = Vec::new();
        let n = self.message_buffer.len();
        let ghost all = message_views(self.message_buffer@);
        let mut i: usize = 0;
        while i < n
            invariant
                n == self.message_buffer@.len(),
                i <= n,
                all == message_views(self.message_buffer@),
                r@.len() == message_views(r@).len(),
                message_views(r@) == messages_after(all.subrange(0, i as int), since),
            decreases n - i,
        {
            let m = &self.message_buffer[i];
            proof {
                assert(all.subrange(0, i + 1).drop_last() =~= all.subrange(0, i as int));
                assert(all.subrange(0, i + 1).last() == m@);
                reveal(Seq::filter);
            }
            if m.timestamp.is_after(&since) {
                r.push(m.clone());
                assert(message_views(r@) =~= messages_after(all.subrange(0, i + 1), since));
            } else {
                assert(message_views(r@) =~= messages_after(all.subrange(0, i + 1), since));
            }
            i = i + 1;
        }
        assert(all.subrange(0, n as int) =~= all);
        r
    }

    /// Forgets every message.
    pub fn clear(&mut self)
        ensures
            final(self).messages() == Seq::<UnifiedMessageView>::empty(),
            final(self).capacity() == old(self).capacity(),
    {
        self.message_buffer.clear();
        assert(self.messages() =~= Seq::<UnifiedMessageView>::empty());
    }

    /// How many messages are held.
    pub fn len(&self) -> (r: usize)
        ensures
            r == self.messages().len(),
    {
        self.message_buffer.len()
    }
}

/// The history never holds more than its capacity (or one message, where the
/// capacity is 0): pushing onto a history within that bound stays within it.
pub proof fn lemma_push_keeps_bound(buf: Seq<UnifiedMessageView>, max: nat, m: UnifiedMessageView)
    requires
        buf.len() <= if max == 0 {
            1
        } else {
            max
        },
    ensures
        pushed(buf, max, m).len() <= if max == 0 {
            1
        } else {
            max
        },
        pushed(buf, max, m).last() == m,
{
}

/// Pushing keeps every message but the oldest, in order, and adds the new one
/// last: below capacity nothing is dropped.
pub proof fn lemma_push_below_capacity(buf: Seq<UnifiedMessageView>, max: nat, m: UnifiedMessageView)
    requires
        buf.len() < max,
    ensures
        pushed(buf, max, m) == buf.push(m),
{
}


/// A chat connection serves `platform` and `channel`.
pub open spec fn serves(key: (ChatPlatform, Seq<char>), platform: ChatPlatform, channel: Seq<char>) -> bool {
    key.0 == platform && key.1 == channel
}

/// The platform and channel of each connection, as plain values.
pub open spec fn key_views(keys: Seq<(ChatPlatform, String)>) -> Seq<(ChatPlatform, Seq<char>)> {
    keys.map_values(|k: (ChatPlatform, String)| (k.0, k.1@))
}

/// The first connection, by position, that serves `platform` and `channel`.
pub fn find_connection(keys: &Vec<(ChatPlatform, String)>, platform: ChatPlatform, channel: &str) -> (r:
    Option<usize>)
    ensures
        match r {
            Some(i) => i < keys@.len() && serves(key_views(keys@)[i as int], platform, channel@)
                && forall|j: int| 0 <= j < i ==> !serves(#[trigger] key_views(keys@)[j], platform, channel@),
            None => forall|j: int|
                0 <= j < keys@.len() ==> !serves(#[trigger] key_views(keys@)[j], platform, channel@),
        },
{
    let n = keys.len();
    let mut i: usize = 0;
    while i < n
        invariant
            n == keys@.len(),
            i <= n,
            forall|j: int| 0 <= j < i ==> !serves(#[trigger] key_views(keys@)[j], platform, channel@),
        decreases n - i,
    {
        if keys[i].0 == platform && str_eq(keys[i].1.as_str(), channel) {
            return Some(i);
        }
        i = i + 1;
    }
    None
}

/// The positions of the connections that stay when those serving `platform`
/// and `channel` are removed, in order.
pub fn connections_kept(keys: &Vec<(ChatPlatform, String)>, platform: ChatPlatform, channel: &str) -> (r:
    Vec<usize>)
    ensures
        forall|a: int, b: int| 0 <= a < b < r@.len() ==> r@[a] < r@[b],
        forall|a: int|
            0 <= a < r@.len() ==> r@[a] < keys@.len() && !serves(
                key_views(keys@)[r@[a] as int],
                platform,
                channel@,
            ),
        forall|j: int|
            0 <= j < keys@.len() && !serves(#[trigger] key_views(keys@)[j], platform, channel@)
                ==> r@.contains(j as usize),
{
    let n = keys.len();
    let mut r: Vec<usize> = Vec::new();
    let mut i: usize = 0;
    while i < n
        invariant
            n == keys@.len(),
            i <= n,
            forall|a: int, b: int| 0 <= a < b < r@.len() ==> r@[a] < r@[b],
            forall|a: int| 0 <= a < r@.len() ==> r@[a] < i,
            forall|a: int|
                0 <= a < r@.len() ==> !serves(key_views(keys@)[r@[a] as int], platform, channel@),
            forall|j: int|
                0 <= j < i && !serves(#[trigger] key_views(keys@)[j], platform, channel@) ==> r@.contains(
                    j as usize,
                ),
        decreases n - i,
    {
        let hit = keys[i].0 == platform && str_eq(keys[i].1.as_str(), channel);
        if !hit {
            let ghost before = r@;
            r.push(i);
            proof {
                assert forall|j: int|
                    0 <= j < i + 1 && !serves(#[trigger] key_views(keys@)[j], platform, channel@)
                        implies r@.contains(j as usize) by {
                    if j < i {
                        let k = choose|k: int| 0 <= k < before.len() && before[k] == j as usize;
                        assert(r@[k] == j as usize);
                    } else {
                        assert(r@[before.len() as int] == i);
                    }
                }
            }
        } else {
            proof {
                assert forall|j: int|
                    0 <= j < i + 1 && !serves(#[trigger] key_views(keys@)[j], platform, channel@)
                        implies r@.contains(j as usize) by {
                    if j == i {
                        assert(serves(key_views(keys@)[j], platform, channel@));
                    }
                }
            }
        }
        i = i + 1;
    }
    r
}

} // verus!
