use vstd::prelude::*;
use crate::chat::{UnifiedChatMessage, opt_view, platform_name};
use crate::names::string_views;
use crate::text::owned;
use crate::types::{AudioInfo, EncoderId, SceneId, SceneItemId, SourceId, VideoInfo};

verus! {

/// Life cycle of the studio's session, recording, stream and replay buffer.
#[derive(Clone, Debug)]
pub enum SessionEvent {
    Starting,
    Started,
    Stopping,
    Stopped,
    RecordingStarting,
    RecordingStarted,
    RecordingStopping,
    RecordingStopped,
    StreamingStarting { duration_ms: u64 },
    StreamingStarted,
    StreamingStopping,
    StreamingStopped,
    ReplayBufferStarting,
    ReplayBufferStarted,
    ReplayBufferStopping,
    ReplayBufferStopped,
    ReplayBufferSaved { path: String },
}

/// What happened to a source.
#[derive(Clone, Debug)]
pub enum SourceEvent {
    Created { id: SourceId, name: String, source_type: String },
    Removed { id: SourceId },
    Renamed { id: SourceId, old_name: String, new_name: String },
    Activated { id: SourceId },
    Deactivated { id: SourceId },
    PropertiesChanged { id: SourceId, properties: Vec<String> },
    VideoPropertiesChanged { id: SourceId, info: VideoInfo },
    AudioPropertiesChanged { id: SourceId, info: AudioInfo },
}

/// What happened to an encoder.
#[derive(Clone, Debug)]
pub enum EncoderEvent {
    Created { id: EncoderId, name: String, codec: String },
    Removed { id: EncoderId },
    ParametersChanged { id: EncoderId },
    Error { id: EncoderId, message: String },
}

/// What happened to a scene or its items.
#[derive(Clone, Debug)]
pub enum SceneEvent {
    Created { id: SceneId, name: String },
    Removed { id: SceneId },
    Renamed { id: SceneId, name: String },
    ItemAdded { scene: SceneId, item: SceneItemId, name: String },
    ItemRemoved { scene: SceneId, item: SceneItemId },
    ItemOrderChanged { scene: SceneId, items: Vec<SceneItemId> },
    ItemTransformChanged { scene: SceneId, item: SceneItemId },
    ItemVisibilityChanged { scene: SceneId, item: SceneItemId, visible: bool },
    CurrentChanged { id: SceneId },
}

/// A chat message as the rest of the studio sees it.
#[derive(Clone, Debug)]
pub struct ChatMessage {
    pub id: String,
    pub platform: String,
    pub channel: String,
    pub user: String,
    pub user_id: String,
    pub content: String,
    pub timestamp: i64,
    pub color: Option<String>,
    pub badges: Vec<String>,
    pub is_mod: bool,
    pub is_subscriber: bool,
    pub is_vip: bool,
    pub is_broadcaster: bool,
    pub is_first_message: bool,
    pub is_highlighted: bool,
    pub reply_count: u32,
    pub bits: u32,
}

/// What happened in a chat.
#[derive(Clone, Debug)]
pub enum ChatEvent {
    Connected { platform: String, channel: String },
    Disconnected { platform: String, channel: String },
    Message(ChatMessage),
    UserJoined { platform: String, channel: String, user: String },
    UserLeft { platform: String, channel: String, user: String },
    UserBanned { platform: String, channel: String, user: String, reason: String },
    GiftedSub { platform: String, channel: String, gifter: String, recipient: String, months: u32 },
    Raided { platform: String, channel: String, raider: String, viewers: u32 },
}

/// An error reported to the user.
#[derive(Clone, Debug)]
pub struct ErrorEvent {
    pub code: String,
    pub message: String,
    pub details: Option<String>,
}

/// A log line.
#[derive(Clone, Debug)]
pub struct LogEvent {
    pub level: LogLevel,
    pub message: String,
    pub module: Option<String>,
}

/// Severity of a log line.
#[derive(Clone, Copy, Debug, PartialEq, Eq, Structural)]
pub enum LogLevel {
    Debug,
    Info,
    Warning,
    Error,
    Critical,
}

/// The value of an optional count, or 0.
pub open spec fn count_or_zero(c: Option<u32>) -> u32 {
    match c {
        Some(n) => n,
        None => 0,
    }
}

impl ChatMessage {
    /// The studio's form of a platform chat message: the platform by name,
    /// the author's display name and id, the time in whole seconds since the
    /// epoch, and absent counts as 0.
    pub fn from(msg: UnifiedChatMessage) -> (r: ChatMessage)
        ensures
            r.id@ == msg@.id,
            r.platform@ == platform_name(msg@.platform),
            r.channel@ == msg@.channel,
            r.user@ == msg@.user.display_name,
            r.user_id@ == msg@.user.id,
            r.content@ == msg@.content,
            r.timestamp == msg@.timestamp.secs,
            opt_view(r.color) == msg@.user.color,
            string_views(r.badges@) == msg@.user.badges,
            r.is_mod == msg@.metadata.is_mod,
            r.is_subscriber == msg@.metadata.is_subscriber,
            r.is_vip == msg@.metadata.is_vip,
            r.is_broadcaster == msg@.metadata.is_broadcaster,
            r.is_first_message == msg@.metadata.is_first_message,
            r.is_highlighted == msg@.metadata.is_highlighted,
            r.reply_count == count_or_zero(msg@.metadata.reply_count),
            r.bits == count_or_zero(msg@.metadata.bits),
    {
        let reply_count = match msg.metadata.reply_count {
            Some(n) => n,
            None => 0,
        };
        let bits = match msg.metadata.bits {
            Some(n) => n,
            None => 0,
        };
        ChatMessage {
            id: msg.id,
            platform: owned(msg.platform.display_name()),
            channel: msg.channel,
            user: msg.user.display_name,
            user_id: msg.user.id,
            content: msg.content,
            timestamp: msg.timestamp.secs,
            color: msg.user.color,
            badges: msg.user.badges,
            is_mod: msg.metadata.is_mod,
            is_subscriber: msg.metadata.is_subscriber,
            is_vip: msg.metadata.is_vip,
            is_broadcaster: msg.metadata.is_broadcaster,
            is_first_message: msg.metadata.is_first_message,
            is_highlighted: msg.metadata.is_highlighted,
            reply_count,
            bits,
        }
    }
}

} // verus!
