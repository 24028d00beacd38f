use vstd::prelude::*;
use crate::frame::EncodedPacket;
use crate::property::{PropertyDef, PropertyDefView, PropertyType, PropertyValue, ValueView, defs_view, pairs_view};
use crate::text::{decimal, owned, push_decimal, push_str, str_eq};
use crate::types::OutputId;

verus! {

/// How many times `connect` tries before it gives up, unless configured
/// otherwise.
pub const MAX_CONNECT_ATTEMPTS: u32 = 5u32;

/// Bit pattern of the `f64` value 30.0, the frame rate reported once frames
/// are counted.
pub const F64_THIRTY_BITS: u64 = 0x403E_0000_0000_0000u64;

/// Running figures of an RTMP stream; `frame_rate` holds an `f64` bit pattern.
#[derive(Clone, Copy, Debug, PartialEq, Eq, Structural)]
pub struct OutputStatistics {
    pub total_bytes_sent: u64,
    pub total_frames_sent: u64,
    pub bitrate: u32,
    pub frame_rate: u64,
    pub dropped_frames: u64,
    pub total_duration_ms: u64,
    pub connect_time_ms: u64,
}

impl Default for OutputStatistics {
    /// Everything zero.
    fn default() -> (r: OutputStatistics)
        ensures
            r == (OutputStatistics {
                total_bytes_sent: 0,
                total_frames_sent: 0,
                bitrate: 0,
                frame_rate: 0,
                dropped_frames: 0,
                total_duration_ms: 0,
                connect_time_ms: 0,
            }),
    {
        OutputStatistics {
            total_bytes_sent: 0,
            total_frames_sent: 0,
            bitrate: 0,
            frame_rate: 0,
            dropped_frames: 0,
            total_duration_ms: 0,
            connect_time_ms: 0,
        }
    }
}

/// The figures after sending a packet of `len` bytes: bytes and frames are
/// counted, and every 30th frame sets the frame rate to 30 and the bitrate to
/// what that packet size gives at 30 frames per second, in kilobits.
pub open spec fn stats_after_send(s: OutputStatistics, len: nat) -> OutputStatistics {
    let frames = (s.total_frames_sent + 1) as u64;
    let counted = OutputStatistics {
        total_bytes_sent: (s.total_bytes_sent + len) as u64,
        total_frames_sent: frames,
        ..s
    };
    if frames % 30 == 0 {
        OutputStatistics {
            frame_rate: F64_THIRTY_BITS,
            bitrate: ((len * 8 * 30) / 1000) as u32,
            ..counted
        }
    } else {
        counted
    }
}

/// Whether a packet of `len` bytes can be counted without overflow.
pub open spec fn can_count(s: OutputStatistics, len: nat) -> bool {
    &&& s.total_bytes_sent + len <= u64::MAX
    &&& s.total_frames_sent < u64::MAX
    &&& len * 8 * 30 <= u64::MAX
}

/// Seconds to wait before the next attempt after `attempts` failed ones:
/// doubling from 2, at most 30.
pub open spec fn reconnect_delay(attempts: u32) -> u64 {
    if attempts >= 5 {
        30
    } else {
        let p: u64 = if attempts == 0 {
            1
        } else if attempts == 1 {
            2
        } else if attempts == 2 {
            4
        } else if attempts == 3 {
            8
        } else {
            16
        };
        p
    }
}

/// `min(2^attempts, 30)`: the back-off before the next connection attempt.
pub fn reconnect_delay_secs(attempts: u32) -> (r: u64)
    ensures
        r == reconnect_delay(attempts),
        r <= 30,
{
    let mut p: u64 = 1;
    let mut i: u32 = 0;
    while i < attempts && p < 30
        invariant
            i <= attempts,
            p == (if i == 0 {
                1u64
            } else if i == 1 {
                2u64
            } else if i == 2 {
                4u64
            } else if i == 3 {
                8u64
            } else if i == 4 {
                16u64
            } else {
                32u64
            }),
            i <= 5,
            p < 30 <==> i < 5,
        decreases attempts - i,
    {
        p = p * 2;
        i = i + 1;
    }
    if p < 30 {
        p
    } else {
        30
    }
}

/// What the connection loop does after an attempt.
#[derive(Clone, Copy, Debug, PartialEq, Eq, Structural)]
pub enum ConnectStep {
    /// The stream is up.
    Connected,
    /// Wait this many seconds, then try again.
    Retry(u64),
    /// Every attempt failed.
    GiveUp,
}

/// An RTMP stream output: server, key, connection state and figures. The
/// network work is done by its owner, which reports each attempt's outcome.
pub struct RtmpOutput {
    id: OutputId,
    name: String,
    server: String,
    stream_key: String,
    connected: bool,
    reconnecting: bool,
    reconnect_attempts: u64,
    max_connect_attempts: u32,
    stats: OutputStatistics,
}

/// Mathematical state of an RTMP output.
pub struct RtmpView {
    pub id: OutputId,
    pub name: Seq<char>,
    pub server: Seq<char>,
    pub stream_key: Seq<char>,
    pub connected: bool,
    pub reconnecting: bool,
    pub reconnect_attempts: u64,
    /// How many attempts `connect` makes before it gives up.
    pub max_connect_attempts: u32,
    pub stats: OutputStatistics,
}

impl View for RtmpOutput {
    type V = RtmpView;

    closed spec fn view(&self) -> RtmpView {
        RtmpView {
            id: self.id,
            name: self.name@,
            server: self.server@,
            stream_key: self.stream_key@,
            connected: self.connected,
            reconnecting: self.reconnecting,
            reconnect_attempts: self.reconnect_attempts,
            max_connect_attempts: self.max_connect_attempts,
            stats: self.stats,
        }
    }
}

/// The settings an RTMP output offers.
pub open spec fn rtmp_properties() -> Seq<PropertyDefView> {
    seq![
        PropertyDefView {
            name: "server"@,
            display_name: "Server URL"@,
            description: "RTMP server URL (e.g., rtmp://live.twitch.tv/app)"@,
            type_: PropertyType::String,
            default: ValueView::String("rtmp://live.twitch.tv/app"@),
            min: None,
            max: None,
            step: None,
            enum_values: Seq::empty(),
            visible: true,
            enabled: true,
        },
        PropertyDefView {
            name: "stream_key"@,
            display_name: "Stream Key"@,
            description: "Your stream key from the platform"@,
            type_: PropertyType::String,
            default: ValueView::String(Seq::empty()),
            min: None,
            max: None,
            step: None,
            enum_values: Seq::empty(),
            visible: true,
            enabled: true,
        },
    ]
}

/// A string property with a description.
fn string_def(name: &str, display_name: &str, description: &str, default: String) -> (r: PropertyDef)
    ensures
        r@ == (PropertyDefView {
            name: name@,
            display_name: display_name@,
            description: description@,
            type_: PropertyType::String,
            default: ValueView::String(default@),
            min: None,
            max: None,
            step: None,
            enum_values: Seq::empty(),
            visible: true,
            enabled: true,
        }),
{
    let r = PropertyDef {
        name: owned(name),
        display_name: owned(display_name),
        description: owned(description),
        type_: PropertyType::String,
        default: PropertyValue::String(default),
        min: None,
        max: None,
        step: None,
        enum_values: Vec::new(),
        visible: true,
        enabled: true,
    };
    assert(pairs_view(r.enum_values@) =~= Seq::empty());
    r
}

impl RtmpOutput {
    /// A disconnected output with no server or key.
    pub fn new(id: OutputId, name: String) -> (r: RtmpOutput)
        ensures
            r@.id == id,
            r@.name == name@,
            r@.server == Seq::<char>::empty(),
            r@.stream_key == Seq::<char>::empty(),
            !r@.connected,
            !r@.reconnecting,
            r@.reconnect_attempts == 0,
            r@.max_connect_attempts == MAX_CONNECT_ATTEMPTS,
            r@.stats == OutputStatistics::default_spec(),
    {
        RtmpOutput {
            id,
            name,
            server: String::new(),
            stream_key: String::new(),
            connected: false,
            reconnecting: false,
            reconnect_attempts: 0,
            max_connect_attempts: MAX_CONNECT_ATTEMPTS,
            stats: OutputStatistics::default(),
        }
    }

    /// Sets how many attempts `connect` makes before it gives up.
    pub fn set_max_connect_attempts(&mut self, attempts: u32)
        ensures
            final(self)@ == (RtmpView { max_connect_attempts: attempts, ..old(self)@ }),
    {
        self.max_connect_attempts = attempts;
    }

    /// How many attempts `connect` makes before it gives up.
    pub fn max_connect_attempts(&self) -> (r: u32)
        ensures
            r == self@.max_connect_attempts,
    {
        self.max_connect_attempts
    }

    pub fn set_server(&mut self, server: String, stream_key: String)
        ensures
            final(self)@ == (RtmpView { server: server@, stream_key: stream_key@, ..old(self)@ }),
    {
        self.server = server;
        self.stream_key = stream_key;
    }

    pub fn id(&self) -> (r: OutputId)
        ensures
            r == self@.id,
    {
        self.id
    }

    pub fn name(&self) -> (r: &str)
        ensures
            r@ == self@.name,
    {
        self.name.as_str()
    }

    pub fn server(&self) -> (r: &str)
        ensures
            r@ == self@.server,
    {
        self.server.as_str()
    }

    pub fn stream_key(&self) -> (r: &str)
        ensures
            r@ == self@.stream_key,
    {
        self.stream_key.as_str()
    }

    pub fn protocol(&self) -> (r: &'static str)
        ensures
            r@ == "rtmp"@,
    {
        "rtmp"
    }

    pub fn is_connected(&self) -> (r: bool)
        ensures
            r == self@.connected,
    {
        self.connected
    }

    pub fn is_reconnecting(&self) -> (r: bool)
        ensures
            r == self@.reconnecting,
    {
        self.reconnecting
    }

    pub fn get_stats(&self) -> (r: OutputStatistics)
        ensures
            r == self@.stats,
    {
        self.stats
    }

    /// Enters the connection loop.
    pub fn begin_connect(&mut self)
        ensures
            final(self)@ == (RtmpView { reconnecting: true, ..old(self)@ }),
    {
        self.reconnecting = true;
    }

    /// Records that attempt number `attempt` (from 1) starts.
    pub fn record_attempt(&mut self, attempt: u32)
        ensures
            final(self)@ == (RtmpView { reconnect_attempts: attempt as u64, ..old(self)@ }),
    {
        self.reconnect_attempts = attempt as u64;
    }

    /// Decides what follows attempt number `attempt` (from 1 to the configured
    /// number of attempts): success connects and resets the count; a failure
    /// before the last attempt waits `min(2^attempt, 30)` seconds; the last
    /// failure gives up.
    pub fn attempt_finished(&mut self, attempt: u32, succeeded: bool) -> (r: ConnectStep)
        requires
            1 <= attempt <= old(self)@.max_connect_attempts,
        ensures
            succeeded ==> r == ConnectStep::Connected && final(self)@ == (RtmpView {
                connected: true,
                reconnecting: false,
                reconnect_attempts: 0,
                ..old(self)@
            }),
            !succeeded && attempt < old(self)@.max_connect_attempts ==> r == ConnectStep::Retry(
                reconnect_delay(attempt),
            ) && final(self)@ == old(self)@,
            !succeeded && attempt == old(self)@.max_connect_attempts ==> r == ConnectStep::GiveUp
                && final(self)@ == (RtmpView { reconnecting: false, ..old(self)@ }),
    {
        if succeeded {
            self.connected = true;
            self.reconnecting = false;
            self.reconnect_attempts = 0;
            ConnectStep::Connected
        } else if attempt < self.max_connect_attempts {
            ConnectStep::Retry(reconnect_delay_secs(attempt))
        } else {
            self.reconnecting = false;
            ConnectStep::GiveUp
        }
    }

    /// The message of a connection that failed every attempt.
    pub fn give_up_message(&self) -> (r: String)
        ensures
            r@ == "Failed after "@ + decimal(self@.max_connect_attempts as nat) + " attempts"@,
    {
        let mut s = owned("Failed after ");
        push_decimal(&mut s, self.max_connect_attempts as u64);
        push_str(&mut s, " attempts");
        s
    }

    /// Marks the output disconnected.
    pub fn disconnect(&mut self)
        ensures
            final(self)@ == (RtmpView { connected: false, ..old(self)@ }),
    {
        self.connected = false;
    }

    /// Counts a packet sent on the connection; refused while disconnected.
    pub fn send_packet(&mut self, packet: &EncodedPacket) -> (r: Result<(), String>)
        requires
            old(self)@.connected ==> can_count(old(self)@.stats, packet.data@.len()),
        ensures
            old(self)@.connected ==> r is Ok && final(self)@ == (RtmpView {
                stats: stats_after_send(old(self)@.stats, packet.data@.len()),
                ..old(self)@
            }),
            !old(self)@.connected ==> (r matches Err(m) && m@ == "Not connected"@)
                && final(self)@ == old(self)@,
    {
        if !self.connected {
            return Err(owned("Not connected"));
        }
        let len = packet.data.len() as u64;
        self.stats.total_bytes_sent = self.stats.total_bytes_sent + len;
        self.stats.total_frames_sent = self.stats.total_frames_sent + 1;
        if self.stats.total_frames_sent % 30 == 0 {
            self.stats.frame_rate = F64_THIRTY_BITS;
            self.stats.bitrate = ((len * 8 * 30) / 1000) as u32;
        }
        Ok(())
    }

    /// Server URL and stream key.
    pub fn properties_definition(&self) -> (r: Vec<PropertyDef>)
        ensures
            defs_view(r@) == rtmp_properties(),
    {
        let r = vec![
            string_def(
                "server",
                "Server URL",
                "RTMP server URL (e.g., rtmp://live.twitch.tv/app)",
                owned("rtmp://live.twitch.tv/app"),
            ),
            string_def("stream_key", "Stream Key", "Your stream key from the platform", String::new()),
        ];
        assert(defs_view(r@) =~= rtmp_properties());
        r
    }

    /// The server or stream key.
    pub fn get_property(&self, name: &str) -> (r: Option<PropertyValue>)
        ensures
            name@ == "server"@ ==> (r matches Some(v) && v@ == ValueView::String(self@.server)),
            name@ != "server"@ && name@ == "stream_key"@ ==> (r matches Some(v) && v@
                == ValueView::String(self@.stream_key)),
            name@ != "server"@ && name@ != "stream_key"@ ==> r is None,
    {
        if str_eq(name, "server") {
            Some(PropertyValue::String(self.server.clone()))
        } else if str_eq(name, "stream_key") {
            Some(PropertyValue::String(self.stream_key.clone()))
        } else {
            None
        }
    }

    /// Sets the server or stream key from a string value; anything else is
    /// ignored.
    pub fn set_property(&mut self, name: &str, value: PropertyValue)
        ensures
            final(self)@ == (if name@ == "server"@ {
                match value@ {
                    ValueView::String(s) => RtmpView { server: s, ..old(self)@ },
                    _ => old(self)@,
                }
            } else if name@ == "stream_key"@ {
                match value@ {
                    ValueView::String(k) => RtmpView { stream_key: k, ..old(self)@ },
                    _ => old(self)@,
                }
            } else {
                old(self)@
            }),
    {
        if str_eq(name, "server") {
            if let PropertyValue::String(s) = value {
                self.server = s;
            }
        } else if str_eq(name, "stream_key") {
            if let PropertyValue::String(k) = value {
                self.stream_key = k;
            }
        }
    }
}

impl OutputStatistics {
    pub open spec fn default_spec() -> OutputStatistics {
        OutputStatistics {
            total_bytes_sent: 0,
            total_frames_sent: 0,
            bitrate: 0,
            frame_rate: 0,
            dropped_frames: 0,
            total_duration_ms: 0,
            connect_time_ms: 0,
        }
    }
}

/// An RTMP output named `name`.
pub fn create_rtmp_output(id: OutputId, name: String) -> (r: RtmpOutput)
    ensures
        r@.id == id,
        r@.name == name@,
        !r@.connected,
{
    RtmpOutput::new(id, name)
}

/// Creates RTMP outputs.
pub struct RtmpOutputFactory;

impl RtmpOutputFactory {
    pub fn output_type(&self) -> (r: &'static str)
        ensures
            r@ == "rtmp_output"@,
    {
        "rtmp_output"
    }

    pub fn display_name(&self) -> (r: &'static str)
        ensures
            r@ == "RTMP Stream"@,
    {
        "RTMP Stream"
    }

    pub fn protocol(&self) -> (r: &'static str)
        ensures
            r@ == "rtmp"@,
    {
        "rtmp"
    }

    /// A new output named `RTMP Output`.
    pub fn create(&self, id: OutputId) -> (r: RtmpOutput)
        ensures
            r@.id == id,
            r@.name == "RTMP Output"@,
            !r@.connected,
    {
        RtmpOutput::new(id, owned("RTMP Output"))
    }
}

/// The connection loop waits 2, 4, 8 and 16 seconds between its five
/// attempts: never more than 30 seconds, and 30 seconds in all.
pub proof fn lemma_connect_backoff()
    ensures
        reconnect_delay(1) == 2,
        reconnect_delay(2) == 4,
        reconnect_delay(3) == 8,
        reconnect_delay(4) == 16,
        reconnect_delay(1) + reconnect_delay(2) + reconnect_delay(3) + reconnect_delay(4) == 30,
        forall|a: u32| #[trigger] reconnect_delay(a) <= 30,
{
}

} // verus!
