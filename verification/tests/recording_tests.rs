use robs::blit::swap_red_blue;
use robs::chat::{connections_kept, find_connection, ChatPlatform};
use robs::capture::{MonitorCaptureSource, WindowCaptureSource};
use robs::property::PropertyValue;
use robs::recording::{
    audio_input, pick_audio_device, preview_capture_items, recording_capture_input,
    recording_ffmpeg_args, starts_with_str, CaptureInput,
};
use robs::scene::Scene;
use robs::types::{ObjectId, SceneId, SourceId};

fn scene_with(names: &[(&str, bool)]) -> Scene {
    let mut s = Scene::new(SceneId(ObjectId(1)), "Scene".to_string());
    for (i, (name, visible)) in names.iter().enumerate() {
        let id = s.add_source(SourceId(ObjectId(10 + i as u64)), name.to_string());
        s.set_item_visible(id, *visible);
    }
    s
}

fn strings(v: &[&str]) -> Vec<String> {
    v.iter().map(|s| s.to_string()).collect()
}

#[test]
fn starts_with_matches_prefixes() {
    assert!(starts_with_str("Window: Notepad", "Window:"));
    assert!(starts_with_str("abc", ""));
    assert!(!starts_with_str("Win", "Window:"));
    assert!(!starts_with_str("Display", "Window:"));
}

#[test]
fn capture_input_prefers_visible_window_items() {
    let s = scene_with(&[("Display Capture", true), ("Window: Hidden", false), ("Window: Notepad", true)]);
    match recording_capture_input(s.items(), &vec![(0, 0, 1920, 1080)]) {
        CaptureInput::Window { title } => assert_eq!(title, "Notepad"),
        other => panic!("unexpected {:?}", other),
    }
    let s = scene_with(&[("Window:NoSpace", true)]);
    match recording_capture_input(s.items(), &vec![]) {
        CaptureInput::Window { title } => assert_eq!(title, "Window:NoSpace"),
        other => panic!("unexpected {:?}", other),
    }
}

#[test]
fn capture_input_uses_named_monitor() {
    let monitors = vec![(0, 0, 1920, 1080), (1920, -200, 2560, 1440)];
    let s = scene_with(&[("Display Capture (Monitor 2)", true)]);
    match recording_capture_input(s.items(), &monitors) {
        CaptureInput::Screen { x, y, width, height } => assert_eq!((x, y, width, height), (1920, -200, 2560, 1440)),
        other => panic!("unexpected {:?}", other),
    }
    // A second monitor that does not exist falls back to the primary area.
    match recording_capture_input(s.items(), &vec![(5, 5, 800, 600)]) {
        CaptureInput::Screen { x, y, width, height } => assert_eq!((x, y, width, height), (0, 0, 1920, 1080)),
        other => panic!("unexpected {:?}", other),
    }
    let empty = scene_with(&[]);
    match recording_capture_input(empty.items(), &monitors) {
        CaptureInput::Screen { x, y, width, height } => assert_eq!((x, y, width, height), (0, 0, 1920, 1080)),
        other => panic!("unexpected {:?}", other),
    }
}

#[test]
fn audio_inputs_follow_device_ids() {
    assert_eq!(audio_input("default", "audio=Fallback"), "audio=Fallback");
    assert_eq!(audio_input("audio=Mic", "x"), "audio=Mic");
    assert_eq!(audio_input("Speakers", "x"), "audio=Speakers");
    let channels = vec![(false, "mic1".to_string()), (true, "desk".to_string()), (false, "mic2".to_string())];
    assert_eq!(pick_audio_device(&channels, true), "desk");
    assert_eq!(pick_audio_device(&channels, false), "mic1");
    assert_eq!(pick_audio_device(&vec![], true), "disabled");
}

#[test]
fn recording_args_for_monitor_with_nvenc() {
    let input = CaptureInput::Screen { x: -1920, y: 0, width: 1920, height: 1080 };
    let args = recording_ffmpeg_args(&input, "NVIDIA NVENC", "default", "default", 6000, "48000", "mono", "mkv", "out.mkv");
    assert_eq!(
        args,
        strings(&[
            "-f", "gdigrab", "-framerate", "30", "-draw_mouse", "1", "-offset_x", "-1920", "-offset_y", "0",
            "-video_size", "1920x1080", "-i", "desktop", "-f", "dshow", "-i",
            "audio=Broadcast Stream Mix (TC-HELICON GoXLR)", "-c:v", "h264_nvenc", "-preset", "p4", "-tune",
            "ll", "-gpu", "0", "-rc", "cbr", "-b:v", "6000k", "-maxrate", "6000k", "-bufsize", "12000k", "-c:a",
            "aac", "-b:a", "192k", "-ar", "48000", "-ac", "1", "-r", "30", "-f", "matroska", "-y", "out.mkv",
        ])
    );
}

#[test]
fn recording_args_for_window_without_audio() {
    let input = CaptureInput::Window { title: "Game".to_string() };
    let args = recording_ffmpeg_args(&input, "x264", "disabled", "disabled", 10000, "44100", "stereo", "mov", "o.mov");
    assert_eq!(
        args,
        strings(&[
            "-f", "gdigrab", "-framerate", "30", "-draw_mouse", "1", "-i", "title=Game", "-c:v", "libx264",
            "-preset", "fast", "-tune", "zerolatency", "-crf", "23", "-r", "30", "-y", "o.mov",
        ])
    );
    let both = recording_ffmpeg_args(&input, "x264", "Speakers", "audio=Mic", 1, "48000", "stereo", "mp4", "o.mp4");
    assert_eq!(
        both,
        strings(&[
            "-f", "gdigrab", "-framerate", "30", "-draw_mouse", "1", "-i", "title=Game", "-f", "dshow", "-i",
            "audio=Speakers", "-f", "dshow", "-i", "audio=Mic", "-c:v", "libx264", "-preset", "fast", "-tune",
            "zerolatency", "-crf", "23", "-c:a", "aac", "-b:a", "192k", "-ar", "48000", "-r", "30", "-f", "mp4",
            "-y", "o.mp4",
        ])
    );
}

#[test]
fn preview_lists_visible_capture_items() {
    let s = scene_with(&[("Window: A", true), ("Camera", true), ("Display Capture", false), ("Display Capture 2", true)]);
    let items = preview_capture_items(s.items());
    let names: Vec<&str> = items.iter().map(|(_, n)| n.as_str()).collect();
    assert_eq!(names, vec!["Window: A", "Display Capture 2"]);
    assert_eq!(items[0].0, s.items()[0].id());
    assert_eq!(items[1].0, s.items()[3].id());
}

#[test]
fn red_and_blue_swap_in_whole_pixels() {
    let mut data = vec![1, 2, 3, 4, 5, 6, 7, 8, 9, 10];
    swap_red_blue(&mut data);
    assert_eq!(data, vec![3, 2, 1, 4, 7, 6, 5, 8, 9, 10]);
}

#[test]
fn chat_connections_found_and_kept() {
    let keys = vec![
        (ChatPlatform::Twitch, "a".to_string()),
        (ChatPlatform::YouTube, "a".to_string()),
        (ChatPlatform::Twitch, "a".to_string()),
        (ChatPlatform::Twitch, "b".to_string()),
    ];
    assert_eq!(find_connection(&keys, ChatPlatform::Twitch, "a"), Some(0));
    assert_eq!(find_connection(&keys, ChatPlatform::YouTube, "a"), Some(1));
    assert_eq!(find_connection(&keys, ChatPlatform::Kick, "a"), None);
    assert_eq!(connections_kept(&keys, ChatPlatform::Twitch, "a"), vec![1, 3]);
    assert_eq!(connections_kept(&keys, ChatPlatform::Kick, "z"), vec![0, 1, 2, 3]);
}

#[test]
fn monitor_capture_state_and_arguments() {
    let mut m = MonitorCaptureSource::new(SourceId(ObjectId(3)), "Display".to_string(), 0);
    assert!(!m.is_active());
    let args = m.activate();
    assert_eq!(
        args,
        strings(&["-f", "gdigrab", "-framerate", "30", "-draw_mouse", "1", "-i", "desktop", "-f", "rawvideo", "-pix_fmt", "bgra", "-"])
    );
    assert!(m.is_active());
    assert_eq!(m.frame_read(), 33);
    assert_eq!(m.frame_read(), 66);
    assert_eq!(m.frame_count(), 2);
    m.set_property("monitor", PropertyValue::Int(4_294_967_298));
    assert_eq!(m.get_property("monitor"), Some(PropertyValue::Int(2)));
    m.deactivate();
    assert_eq!(m.frame_count(), 0);
    assert_eq!(m.properties_definition().len(), 1);
}

#[test]
fn window_capture_state_and_arguments() {
    let mut w = WindowCaptureSource::new(SourceId(ObjectId(4)), "Win".to_string(), "Calc".to_string());
    let args = w.activate();
    assert_eq!(
        args,
        strings(&[
            "-f", "gdigrab", "-framerate", "30", "-offset_x", "0", "-offset_y", "0", "-i", "title=Calc", "-f",
            "rawvideo", "-pix_fmt", "bgra", "-",
        ])
    );
    w.set_property("window", PropertyValue::String("Paint".to_string()));
    assert_eq!(w.window_title(), "Paint");
    w.set_property("window", PropertyValue::Int(1));
    assert_eq!(w.get_property("window"), Some(PropertyValue::String("Paint".to_string())));
    assert_eq!(w.get_video_info().unwrap().width, 1920);
}

#[test]
fn swapping_twice_restores_pixels() {
    let orig: Vec<u8> = (0..23).collect();
    let mut d = orig.clone();
    swap_red_blue(&mut d);
    assert_ne!(d, orig);
    swap_red_blue(&mut d);
    assert_eq!(d, orig);
}
