use robs::audio_source::SilenceSource;
use robs::capture::TestPatternSource as CaptureTestPattern;
use robs::events::{LogEvent, LogLevel, SessionEvent};
use robs::frame::VideoFrame;
use robs::plugins::{
    is_plugin_library, loaded_plugin_info, plugin_api_version, register_components,
    unregister_components, PluginCapabilities, UnknownPlugin, SOURCE_FLAG_AUDIO,
    SOURCE_FLAG_INTERACTION,
};
use robs::profiles::{
    AudioProfileConfig, OutputMode, OutputProfileConfig, ReplayBufferConfig, ScaleType,
    StreamingConfig, VideoProfileConfig,
};
use robs::property::{PropertyDef, PropertyType, PropertyValue};
use robs::registry::Registry;
use robs::settings::{AudioSettings, GeneralSettings, HotkeyBinding, VideoSettings};
use robs::types::{ObjectId, PixelFormat, SourceId};
use robs::ui::{format_age, format_time, StreamControls};
use robs::video::{create_test_pattern_source, VideoRenderer};

#[test]
fn clock_and_age_labels() {
    assert_eq!(format_time(0), "00:00:00");
    assert_eq!(format_time(3723), "01:02:03");
    assert_eq!(format_time(360000), "100:00:00");
    assert_eq!(format_age(5), "5s");
    assert_eq!(format_age(-3), "-3s");
    assert_eq!(format_age(125), "2m");
    assert_eq!(format_age(7300), "2h");
    assert_eq!(format_age(i64::MIN), "-9223372036854775808s");
}

#[test]
fn plugin_helpers() {
    assert_eq!(plugin_api_version(), 1);
    assert_eq!(SOURCE_FLAG_AUDIO, 1 << 1);
    assert_eq!(SOURCE_FLAG_INTERACTION, 1 << 3);
    assert!(is_plugin_library("dll") && is_plugin_library("so") && is_plugin_library("dylib"));
    assert!(!is_plugin_library("txt") && !is_plugin_library(""));
    let info = loaded_plugin_info("./plugins/x.so");
    assert_eq!(info.name, "./plugins/x.so");
    assert_eq!(info.version, "1.0");
    let p = UnknownPlugin::new(info);
    assert_eq!(p.author(), "Unknown");
    assert_eq!(p.capabilities(), PluginCapabilities::default());
}

#[test]
fn register_then_unregister_components() {
    let mut r: Registry<u8> = Registry::new();
    r.register("keep", 9);
    register_components(&mut r, vec![("a".to_string(), 1), ("b".to_string(), 2), ("a".to_string(), 3)]);
    assert_eq!(*r.get("a").unwrap(), 3);
    assert_eq!(r.count(), 3);
    unregister_components(&mut r, vec!["a".to_string(), "b".to_string(), "a".to_string()]);
    assert!(r.get("a").is_none() && r.get("b").is_none());
    assert_eq!(*r.get("keep").unwrap(), 9);
}

#[test]
fn profile_defaults() {
    let v = VideoProfileConfig::default();
    assert_eq!((v.width, v.height, v.scale_type), (1280, 720, ScaleType::Bilinear));
    let a = AudioProfileConfig::default();
    assert_eq!(a.tracks.len(), 1);
    assert_eq!(a.tracks[0].name, "Track 1");
    let o = OutputProfileConfig::default();
    assert_eq!(o.mode, OutputMode::Simple);
    assert_eq!(o.recording.encoder, "x264");
    assert_eq!(o.replay_buffer, ReplayBufferConfig { enabled: false, duration_secs: 20, max_mb: 500 });
    assert!(StreamingConfig::default().destinations.is_empty());
}

#[test]
fn settings_defaults() {
    let g = GeneralSettings::default();
    assert_eq!(g.filename_formatting, "%CCYY-%MM-%DD %hh-%mm-%ss");
    let v = VideoSettings::default();
    assert_eq!(v.output_resolution, (1280, 720));
    let a = AudioSettings::default();
    assert_eq!(a.channel_setup, "Stereo");
    let h = HotkeyBinding::new("start", "F9", vec!["Ctrl", "Shift"]);
    assert_eq!(h.modifiers, vec!["Ctrl".to_string(), "Shift".to_string()]);
    assert_eq!(StreamControls::default(), StreamControls { streaming: false, recording: false, replay_buffer: false, virtual_cam: false });
}

#[test]
fn silence_source_produces_while_active() {
    let mut s = SilenceSource::new(SourceId(ObjectId(1)), "Silence".to_string());
    assert!(s.get_audio(256).is_none());
    s.activate();
    let f = s.get_audio(256).unwrap();
    assert_eq!(f.frames, 256);
    assert_eq!(f.data.len(), 256 * 3 * 4);
    assert!(s.get_video_info().is_none());
    assert_eq!(s.get_audio_info().unwrap().sample_rate, 48000);
    s.deactivate();
    assert!(!s.is_active());
}

#[test]
fn capture_test_pattern_numbers_frames() {
    let mut t = CaptureTestPattern::new(SourceId(ObjectId(2)), "Pattern".to_string());
    assert!(t.next_frame().is_none());
    t.activate();
    assert_eq!(t.next_frame(), Some((1, 33)));
    assert_eq!(t.next_frame(), Some((2, 66)));
    assert_eq!(t.next_frame(), Some((3, 100)));
    t.activate();
    assert_eq!(t.next_frame(), Some((1, 33)));
    assert_eq!(t.get_video_info().unwrap().format, PixelFormat::BGRA);
}

#[test]
fn video_test_pattern_properties() {
    let mut t = create_test_pattern_source(SourceId(ObjectId(3)));
    assert_eq!(t.name(), "Test Pattern");
    assert_eq!(t.get_property("width"), Some(PropertyValue::Int(1920)));
    t.set_property("width", PropertyValue::Int(640));
    t.set_property("height", PropertyValue::String("x".to_string()));
    assert_eq!(t.get_video_info().unwrap().width, 640);
    assert_eq!(t.get_property("height"), Some(PropertyValue::Int(1080)));
    assert_eq!(t.properties_definition()[1].max.map(f64::from_bits), Some(2160.0));
    let f = t.blank_frame();
    assert_eq!(f.width, 640);
    t.finish_frame();
    assert_eq!(t.frame_count(), 1);
}

#[test]
fn renderer_makes_blank_frames() {
    let mut r = VideoRenderer::new(8, 2, PixelFormat::BGRA);
    let f = r.render(&[]);
    assert_eq!((f.width, f.height, f.data.len()), (8, 2, 32));
    let input = VideoFrame::new(4, 4, PixelFormat::RGBA);
    let s = r.scale(&input, 2, 2);
    assert_eq!((s.width, s.format), (2, PixelFormat::BGRA));
    let c = r.convert_format(&input, PixelFormat::NV12);
    assert_eq!((c.width, c.height, c.format), (4, 4, PixelFormat::NV12));
}

#[test]
fn property_def_default() {
    let d = PropertyDef::default();
    assert_eq!(d.type_, PropertyType::String);
    assert_eq!(d.default, PropertyValue::String(String::new()));
    assert!(d.visible && d.enabled && d.min.is_none());
}

#[test]
fn events_carry_data() {
    let e = SessionEvent::ReplayBufferSaved { path: "a.mp4".to_string() };
    match e.clone() {
        SessionEvent::ReplayBufferSaved { path } => assert_eq!(path, "a.mp4"),
        _ => panic!(),
    }
    let l = LogEvent { level: LogLevel::Warning, message: "m".to_string(), module: None };
    assert_eq!(l.level, LogLevel::Warning);
}

#[test]
fn allocated_ids_differ() {
    let mut ids = robs::types::IdAllocator::new();
    let a = ids.allocate();
    let b = ids.allocate();
    let c = ids.allocate();
    assert!(a != b && b != c && a != c);
    let s1 = SilenceSource::new(SourceId(a), "one".to_string());
    let s2 = SilenceSource::new(SourceId(b), "two".to_string());
    assert_ne!(s1.id(), s2.id());
}
