use robs::destinations::{collect_failures, DestinationConfig, StreamingDestinations};
use robs::file_output::FileOutput;
use robs::frame::EncodedPacket;
use robs::property::PropertyValue;
use robs::rtmp::{reconnect_delay_secs, ConnectStep, RtmpOutput, RtmpOutputFactory, F64_THIRTY_BITS};
use robs::types::{ObjectId, OutputId, TrackId};

fn dest(name: &str, server: &str) -> DestinationConfig {
    DestinationConfig {
        name: name.to_string(),
        platform: "custom".to_string(),
        server: server.to_string(),
        stream_key: "key".to_string(),
        enabled: true,
        bandwidth_limit: None,
    }
}

fn packet(len: usize) -> EncodedPacket {
    EncodedPacket { data: vec![0; len], pts: 0, dts: 0, duration: 0, keyframe: false, track: TrackId(0) }
}

#[test]
fn destinations_add_get_remove() {
    let mut d = StreamingDestinations::new();
    d.add(dest("a", "s1"));
    d.add(dest("b", "s2"));
    d.add(dest("a", "s3"));
    assert_eq!(d.get("a").unwrap().server, "s1");
    assert_eq!(d.list().len(), 3);
    d.remove("a");
    assert!(d.get("a").is_none());
    assert_eq!(d.list().len(), 1);
    assert_eq!(d.get("b").unwrap().server, "s2");
    d.remove("zzz");
    assert_eq!(d.list().len(), 1);
}

#[test]
fn platform_defaults() {
    let t = StreamingDestinations::get_twitch_default(None, "k1".to_string());
    assert_eq!(t.server, "rtmp://live.twitch.tv/app");
    assert_eq!(t.bandwidth_limit, Some(6000));
    let t2 = StreamingDestinations::get_twitch_default(Some("rtmp://eu"), "k1".to_string());
    assert_eq!(t2.server, "rtmp://eu");
    let y = StreamingDestinations::get_youtube_default("k2".to_string());
    assert_eq!((y.name.as_str(), y.bandwidth_limit), ("YouTube", Some(12000)));
    let f = StreamingDestinations::get_facebook_default("k3".to_string());
    assert_eq!(f.server, "rtmps://live-api-s.facebook.com:443/rtmp");
    assert_eq!(f.stream_key, "k3");
}

#[test]
fn backoff_delays() {
    let delays: Vec<u64> = (0..8).map(reconnect_delay_secs).collect();
    assert_eq!(delays, vec![1, 2, 4, 8, 16, 30, 30, 30]);
}

#[test]
fn rtmp_connect_retries_then_gives_up() {
    let mut o = RtmpOutput::new(OutputId(ObjectId(1)), "out".to_string());
    o.begin_connect();
    assert!(o.is_reconnecting());
    let mut waits = Vec::new();
    for attempt in 1..=5 {
        o.record_attempt(attempt);
        match o.attempt_finished(attempt, false) {
            ConnectStep::Retry(d) => waits.push(d),
            ConnectStep::GiveUp => assert_eq!(attempt, 5),
            ConnectStep::Connected => panic!("not connected"),
        }
    }
    assert_eq!(waits, vec![2, 4, 8, 16]);
    assert!(!o.is_reconnecting());
    assert!(!o.is_connected());
    assert_eq!(o.give_up_message(), "Failed after 5 attempts");
}

#[test]
fn rtmp_connect_success_resets() {
    let mut o = RtmpOutput::new(OutputId(ObjectId(1)), "out".to_string());
    o.begin_connect();
    o.record_attempt(2);
    assert_eq!(o.attempt_finished(2, true), ConnectStep::Connected);
    assert!(o.is_connected());
    assert!(!o.is_reconnecting());
    o.disconnect();
    assert!(!o.is_connected());
}

#[test]
fn rtmp_send_counts_and_refuses_when_disconnected() {
    let mut o = RtmpOutput::new(OutputId(ObjectId(1)), "out".to_string());
    assert_eq!(o.send_packet(&packet(10)), Err("Not connected".to_string()));
    o.begin_connect();
    o.attempt_finished(1, true);
    for _ in 0..29 {
        o.send_packet(&packet(100)).unwrap();
    }
    assert_eq!(o.get_stats().bitrate, 0);
    o.send_packet(&packet(1000)).unwrap();
    let s = o.get_stats();
    assert_eq!(s.total_frames_sent, 30);
    assert_eq!(s.total_bytes_sent, 29 * 100 + 1000);
    assert_eq!(s.bitrate, 240);
    assert_eq!(f64::from_bits(s.frame_rate), 30.0);
    assert_eq!(s.frame_rate, F64_THIRTY_BITS);
}

#[test]
fn rtmp_properties() {
    let mut o = RtmpOutputFactory.create(OutputId(ObjectId(2)));
    assert_eq!(o.name(), "RTMP Output");
    assert_eq!(RtmpOutputFactory.output_type(), "rtmp_output");
    o.set_property("server", PropertyValue::String("rtmp://x".to_string()));
    o.set_property("stream_key", PropertyValue::Int(3));
    assert_eq!(o.get_property("server"), Some(PropertyValue::String("rtmp://x".to_string())));
    assert_eq!(o.get_property("stream_key"), Some(PropertyValue::String(String::new())));
    assert_eq!(o.get_property("other"), None);
    let defs = o.properties_definition();
    assert_eq!(defs[0].description, "RTMP server URL (e.g., rtmp://live.twitch.tv/app)");
    o.set_server("rtmp://y".to_string(), "abc".to_string());
    assert_eq!((o.server(), o.stream_key()), ("rtmp://y", "abc"));
}

#[test]
fn file_output_command_line() {
    let mut f = FileOutput::new(OutputId(ObjectId(3)), "rec".to_string(), "/tmp/out".to_string());
    assert_eq!(f.output_path(), "/tmp/out.mp4");
    let args = f.connect();
    assert!(f.is_connected());
    let expected: Vec<&str> = vec![
        "-f", "rawvideo", "-pix_fmt", "bgra", "-s", "1920x1080", "-r", "30", "-i", "-",
        "-f", "s16le", "-ar", "48000", "-ac", "2", "-i", "-",
        "-c:v", "libx264", "-preset", "fast", "-crf", "23",
        "-c:a", "aac", "-b:a", "192k", "-y", "/tmp/out.mp4",
    ];
    assert_eq!(args, expected);
    f.set_video_encoder("h264_nvenc".to_string());
    f.set_property("format", PropertyValue::Enum("mkv".to_string()));
    let args = f.recording_command(1280, 720, 60);
    assert!(args.windows(2).any(|w| w == ["-c:v", "h264_nvenc"]));
    assert_eq!(args.last().unwrap(), "/tmp/out.mkv");
    f.record_written(100);
    f.record_written(50);
    assert_eq!(f.stats().bytes_written, 150);
    assert_eq!(f.stats().frames_written, 2);
    f.disconnect();
    assert!(!f.is_connected());
    assert_eq!(f.get_property("path"), Some(PropertyValue::Path("/tmp/out".to_string())));
    assert_eq!(f.properties_definition()[1].enum_values.len(), 4);
}

#[test]
fn rtmp_connect_limit_is_configurable() {
    let mut o = RtmpOutput::new(OutputId(ObjectId(1)), "out".to_string());
    assert_eq!(o.max_connect_attempts(), 5);
    o.set_max_connect_attempts(3);
    assert_eq!(o.max_connect_attempts(), 3);
    o.begin_connect();
    assert_eq!(o.attempt_finished(1, false), ConnectStep::Retry(2));
    assert_eq!(o.attempt_finished(2, false), ConnectStep::Retry(4));
    assert_eq!(o.attempt_finished(3, false), ConnectStep::GiveUp);
    assert!(!o.is_reconnecting());
    assert_eq!(o.give_up_message(), "Failed after 3 attempts");
}

#[test]
fn collect_failures_lists_failed_attempts_in_order() {
    let attempted = vec![true, false, true, true, true];
    let results = vec![Some(true), None, Some(false), Some(true), Some(false)];
    assert_eq!(collect_failures(&attempted, &results), Some(vec![2, 4]));
    let all_ok = vec![Some(true), None, Some(true), Some(true), Some(true)];
    assert_eq!(collect_failures(&attempted, &all_ok), None);
    // An output that was not tried does not fail, whatever its slot holds.
    assert_eq!(collect_failures(&vec![false], &vec![Some(false)]), None);
    // One that was tried and reported nothing did.
    assert_eq!(collect_failures(&vec![true], &vec![None]), Some(vec![0]));
    assert_eq!(collect_failures(&vec![], &vec![]), None);
}
