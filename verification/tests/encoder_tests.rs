use robs::aac::FfmpegAacEncoder;
use robs::encoder_factory::{
    detect_encoders, detection_from_probe, get_available_audio_encoders, get_available_video_encoders,
    get_encoder_by_name, EncoderKind, FfmpegAacFactory, FfmpegH264Factory, NvencH264Factory,
};
use robs::encoding::{AudioEncodeInfo, MediaInfo, VideoEncodeInfo};
use robs::ffmpeg_h264::FfmpegH264Encoder;
use robs::frame::{MediaData, VideoFrame};
use robs::nvenc::NvencH264Encoder;
use robs::property::{PropertyType, PropertyValue, F64_100_BITS, F64_50000_BITS};
use robs::types::{AudioInfo, EncoderId, EncoderPreset, ObjectId, PixelFormat, RateControlMode, VideoInfo};
use robs::x264::X264Encoder;

fn eid(n: u64) -> EncoderId {
    EncoderId(ObjectId(n))
}

fn video_input(width: u32, height: u32, fps_num: u32, format: PixelFormat) -> MediaInfo {
    let mut v = VideoInfo::default();
    v.width = width;
    v.height = height;
    v.fps_num = fps_num;
    v.format = format;
    MediaInfo::Video(VideoEncodeInfo {
        video: v,
        encoder_name: "test".to_string(),
        codec_params: serde_json::Value::Null,
    })
}

fn audio_input() -> MediaInfo {
    MediaInfo::Audio(AudioEncodeInfo {
        audio: AudioInfo::default(),
        encoder_name: "test".to_string(),
        codec_params: serde_json::Value::Null,
    })
}

fn preset_named(name: &str) -> EncoderPreset {
    EncoderPreset { id: 0, name: name.to_string(), description: String::new(), quality_level: 0, speed_level: 0 }
}

#[test]
fn x264_defaults_and_presets() {
    let e = X264Encoder::new(eid(1));
    assert_eq!(e.name(), "x264");
    assert_eq!(e.codec_name(), "h264");
    assert_eq!(e.preset_name(), "faster");
    let presets = e.get_presets();
    assert_eq!(presets.len(), 9);
    assert_eq!(presets[5].description, "Balancedencoding and quality");
    assert_eq!(e.get_current_preset().name, "faster");
    assert!(e.get_input_info().is_none());
}

#[test]
fn x264_preset_round_trip_and_fallback() {
    let mut e = X264Encoder::new(eid(1));
    for p in e.get_presets() {
        let id = p.id;
        e.set_preset(p);
        assert_eq!(e.get_current_preset().id, id);
    }
    let mut unknown = preset_named("whatever");
    unknown.id = 42;
    e.set_preset(unknown);
    let cur = e.get_current_preset();
    assert_eq!((cur.id, cur.name.as_str(), cur.description.as_str()), (5, "medium", "Balanced"));
    assert_eq!(e.preset_name(), "medium");
}

#[test]
fn x264_parameters_read_after_write() {
    let mut e = X264Encoder::new(eid(1));
    e.set_parameter("bitrate", PropertyValue::Int(8000));
    assert_eq!(e.get_parameter("bitrate"), Some(PropertyValue::Int(8000)));
    e.set_parameter("keyint", PropertyValue::Int(4));
    assert_eq!(e.get_parameter("keyint"), Some(PropertyValue::Int(4)));
    e.set_parameter("rate_control", PropertyValue::Enum("VBR".to_string()));
    assert_eq!(e.get_parameter("rate_control"), Some(PropertyValue::Enum("VBR".to_string())));
    e.set_parameter("rate_control", PropertyValue::Enum("CQP".to_string()));
    assert_eq!(e.get_parameter("rate_control"), Some(PropertyValue::Enum("CBR".to_string())));
    e.set_parameter("bitrate", PropertyValue::Bool(true));
    assert_eq!(e.get_parameter("bitrate"), Some(PropertyValue::Int(8000)));
    assert_eq!(e.get_parameter("nope"), None);
}

#[test]
fn x264_parameter_definitions() {
    let e = X264Encoder::new(eid(1));
    let defs = e.parameters_definition();
    assert_eq!(defs.len(), 3);
    assert_eq!(defs[0].name, "bitrate");
    assert_eq!(defs[0].type_, PropertyType::Int);
    assert_eq!(defs[0].min.map(f64::from_bits), Some(100.0));
    assert_eq!(defs[0].max.map(f64::from_bits), Some(50000.0));
    assert_eq!(defs[1].min.map(f64::from_bits), Some(1.0));
    assert_eq!(defs[1].max.map(f64::from_bits), Some(20.0));
    assert_eq!(defs[2].enum_values.len(), 3);
    assert_eq!(defs[2].default, PropertyValue::Enum("CBR".to_string()));
    assert!(defs[2].visible && defs[2].enabled);
}

#[test]
fn x264_encode_after_initialize() {
    let mut e = X264Encoder::new(eid(1));
    let frame = VideoFrame::new(4, 1, PixelFormat::NV12);
    assert!(e.encode(MediaData::Video(frame.clone())).is_none());
    e.initialize(audio_input());
    assert!(e.encode(MediaData::Video(frame.clone())).is_none());
    e.initialize(video_input(1280, 720, 30, PixelFormat::NV12));
    let p = e.encode(MediaData::Video(frame)).unwrap();
    assert_eq!(p.data.len(), 6000 / 8 / 30);
    assert!(p.keyframe);
    let mut later = VideoFrame::new(4, 1, PixelFormat::NV12);
    later.pts = 5;
    later.duration = 3;
    let q = e.encode(MediaData::Video(later)).unwrap();
    assert_eq!((q.pts, q.dts, q.duration, q.keyframe), (5, 5, 3, false));
    assert!(e.flush().is_empty());
    assert!(e.encode(MediaData::Video(VideoFrame::new(4, 1, PixelFormat::NV12))).is_none());
}

#[test]
fn ffmpeg_h264_command_line_cbr() {
    let mut e = FfmpegH264Encoder::new(eid(2));
    let args = e.initialize(&video_input(1280, 720, 60, PixelFormat::I420)).unwrap();
    let expected: Vec<&str> = vec![
        "-f", "rawvideo", "-pix_fmt", "yuv420p", "-s", "1280x720", "-r", "60/1", "-i", "-",
        "-c:v", "libx264", "-preset", "faster", "-profile:v", "high", "-tune", "zerolatency",
        "-b:v", "6000k", "-maxrate", "6000k", "-bufsize", "12000k", "-x264-params",
        "nal-hrd=cbr:force-cfr=1", "-g", "120", "-keyint_min", "2", "-f", "h264", "-",
    ];
    assert_eq!(args, expected);
    assert!(!e.is_initialized());
    e.started();
    assert!(e.is_initialized());
}

#[test]
fn ffmpeg_h264_command_line_vbr_and_crf() {
    let mut e = FfmpegH264Encoder::new(eid(2));
    e.set_parameter("rate_control", PropertyValue::Enum("VBR".to_string()));
    let args = e.initialize(&video_input(640, 480, 30, PixelFormat::NV12)).unwrap();
    assert!(args.windows(2).any(|w| w == ["-maxrate", "12000k"]));
    assert!(args.windows(2).any(|w| w == ["-bufsize", "24000k"]));
    e.set_parameter("rate_control", PropertyValue::Enum("CRF".to_string()));
    let args = e.initialize(&video_input(640, 480, 30, PixelFormat::NV12)).unwrap();
    assert!(args.windows(2).any(|w| w == ["-crf", "23"]));
    assert!(e.initialize(&audio_input()).is_none());
}

#[test]
fn ffmpeg_h264_packets_count_frames() {
    let mut e = FfmpegH264Encoder::new(eid(2));
    let p = e.output_packet(vec![1, 2, 3]);
    assert_eq!((p.pts, p.keyframe), (0, true));
    e.skip_frame();
    let q = e.output_packet(vec![4]);
    assert_eq!((q.pts, q.keyframe), (2, false));
    let f = e.flushed_packet(vec![5]);
    assert_eq!((f.pts, f.keyframe), (3, false));
}

#[test]
fn ffmpeg_h264_presets_by_name() {
    let mut e = FfmpegH264Encoder::new(eid(2));
    assert_eq!(e.get_current_preset().name, "faster");
    e.set_preset(preset_named("slow"));
    assert_eq!(e.get_current_preset().description, "Slower, better quality");
    e.set_preset(preset_named("bogus"));
    assert_eq!(e.get_current_preset().name, "faster");
    e.set_parameter("profile", PropertyValue::Enum("main".to_string()));
    assert_eq!(e.get_parameter("profile"), Some(PropertyValue::Enum("main".to_string())));
    assert_eq!(FfmpegH264Encoder::pixel_format_str(PixelFormat::YUY2), "nv12");
}

#[test]
fn nvenc_command_line_and_gpu() {
    let mut e = NvencH264Encoder::new(eid(3));
    e.set_parameter("gpu", PropertyValue::Int(1));
    e.set_parameter("rate_control", PropertyValue::Enum("CQP".to_string()));
    let args = e.initialize(&video_input(1920, 1080, 30, PixelFormat::RGBA)).unwrap();
    let expected: Vec<&str> = vec![
        "-f", "rawvideo", "-pix_fmt", "nv12", "-s", "1920x1080", "-r", "30/1", "-i", "-",
        "-c:v", "h264_nvenc", "-preset", "p4", "-profile:v", "high", "-tune", "ll", "-gpu", "1",
        "-rc", "constqp", "-cq", "23", "-g", "60", "-keyint_min", "2", "-f", "h264", "-",
    ];
    assert_eq!(args, expected);
    assert_eq!(NvencH264Encoder::get_gpu_count(true), 1);
    assert_eq!(NvencH264Encoder::get_gpu_count(false), 0);
    assert_eq!(e.get_parameter("gpu"), Some(PropertyValue::Int(1)));
    assert_eq!(e.parameters_definition().len(), 5);
}

#[test]
fn aac_presets_follow_bitrate() {
    let mut e = FfmpegAacEncoder::new(eid(4));
    assert_eq!(e.get_current_preset().name, "128kbps");
    for p in e.get_presets() {
        let name = p.name.clone();
        e.set_preset(p);
        assert_eq!(e.get_current_preset().name, name);
    }
    e.set_preset(preset_named("fast"));
    assert_eq!(e.get_parameter("bitrate"), Some(PropertyValue::Int(128)));
    e.set_preset(preset_named("100kbpskbps"));
    assert_eq!(e.get_parameter("bitrate"), Some(PropertyValue::Int(100)));
    let cur = e.get_current_preset();
    assert_eq!((cur.id, cur.name.as_str(), cur.description.as_str()), (2, "128kbps", "Standard"));
}

#[test]
fn aac_command_line() {
    let mut e = FfmpegAacEncoder::new(eid(4));
    let args = e.initialize(&audio_input()).unwrap();
    let expected: Vec<&str> = vec![
        "-f", "f32le", "-ar", "48000", "-ac", "3", "-i", "-", "-c:a", "aac", "-b:a", "128k",
        "-f", "adts", "-",
    ];
    assert_eq!(args, expected);
    assert_eq!(e.get_parameter("sample_rate"), Some(PropertyValue::Int(48000)));
    match e.get_input_info() {
        Some(MediaInfo::Audio(a)) => {
            assert_eq!(a.encoder_name, "aac");
            assert_eq!(a.codec_params, serde_json::Value::Object(serde_json::Map::new()));
        }
        _ => panic!("expected audio input info"),
    }
    let p = e.output_packet(vec![0; 4], 1024);
    assert_eq!(p.pts, 0);
    let q = e.output_packet(vec![0; 4], 1024);
    assert_eq!(q.pts, 1024);
}

#[test]
fn factories_and_detection() {
    assert_eq!(FfmpegH264Factory.encoder_type(), "ffmpeg_h264");
    assert_eq!(FfmpegH264Factory.create(eid(5)).name(), "FFmpeg x264");
    assert!(NvencH264Factory.create(eid(6), true).is_ok());
    assert_eq!(
        NvencH264Factory.create(eid(6), false).err().unwrap(),
        "NVENC not available. Ensure NVIDIA drivers are installed and FFmpeg supports h264_nvenc."
    );
    assert!(FfmpegAacFactory.create(eid(7), false).is_err());
    assert_eq!(get_available_video_encoders(true), vec![EncoderKind::NvencH264, EncoderKind::FfmpegH264]);
    assert_eq!(get_available_video_encoders(false), vec![EncoderKind::FfmpegH264]);
    assert!(get_available_audio_encoders(false).is_empty());
    assert_eq!(get_encoder_by_name("ffmpeg_aac", false, true), Some(EncoderKind::FfmpegAac));
    assert_eq!(get_encoder_by_name("nvenc_h264", false, true), None);
    assert_eq!(get_encoder_by_name("vp9", true, true), None);
    let d = detect_encoders(true, true, false);
    assert_eq!(d.gpu_count, 1);
    assert_eq!(d.summary(), "FFmpeg: available, NVENC: available (1 GPU), AAC: not available");
    let none = detect_encoders(false, false, true);
    assert_eq!(none.summary(), "FFmpeg: NOT available, NVENC: not available, AAC: available");
}

#[test]
fn property_value_bits() {
    assert_eq!(f64::from_bits(F64_100_BITS), 100.0);
    assert_eq!(f64::from_bits(F64_50000_BITS), 50000.0);
    let _ = RateControlMode::CRF;
}

#[test]
fn encoder_labels_follow_detection() {
    let all = detect_encoders(true, true, true);
    assert_eq!(all.video_encoder_labels(), vec!["FFmpeg x264 (Software)".to_string(), "NVIDIA NVENC H.264 (Hardware)".to_string()]);
    assert_eq!(all.audio_encoder_labels(), vec!["FFmpeg AAC".to_string()]);
    assert_eq!(all.default_video_encoder(), "NVIDIA NVENC H.264 (Hardware)");
    assert_eq!(all.default_audio_encoder(), "FFmpeg AAC");
    let none = detect_encoders(false, false, false);
    assert_eq!(none.video_encoder_labels(), vec!["None Available".to_string()]);
    assert_eq!(none.audio_encoder_labels(), vec!["None Available".to_string()]);
    assert_eq!(none.default_video_encoder(), "None Available");
    assert_eq!(none.default_audio_encoder(), "None Available");
    let soft = detect_encoders(true, false, false);
    assert_eq!(soft.default_video_encoder(), "FFmpeg x264 (Software)");
}

#[test]
fn detection_reads_the_codec_listing() {
    let out = " DEV.LS h264  H.264 (encoders: libx264 h264_nvenc)\n DEA.L. aac  AAC (Advanced Audio Coding)\n";
    let d = detection_from_probe(true, out, "");
    assert!(d.ffmpeg_available && d.nvenc_available && d.aac_available);
    assert_eq!(d.gpu_count, 1);
    // AAC may be named on the error stream only; NVENC must be on the output.
    let d = detection_from_probe(true, " DEV.LS h264  H.264 (encoders: libx264)\n", "AAC h264_nvenc");
    assert!(!d.nvenc_available && d.aac_available);
    assert_eq!(d.gpu_count, 0);
    // A pattern split across the two streams counts for AAC.
    let d = detection_from_probe(false, "xA", "AC");
    assert!(!d.ffmpeg_available && d.aac_available);
    let d = detection_from_probe(false, "", "");
    assert!(!d.nvenc_available && !d.aac_available);
}
