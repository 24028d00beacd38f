use robs::frame::{AudioFrame, VideoFrame};
use robs::pipeline::AudioMixer;
use robs::render::{crop_frame, fill_background};
use robs::scene_item::Crop;
use robs::types::{AudioFormat, AudioInfo, AudioSpeaker, PixelFormat, VideoInfo};

#[test]
fn video_frame_new_holds_one_row_per_plane() {
    let f = VideoFrame::new(8, 4, PixelFormat::RGBA);
    assert_eq!(f.linesize, vec![32]);
    assert_eq!(f.data.len(), 32);
    assert!(f.data.iter().all(|&b| b == 0));
    let n = VideoFrame::new(8, 4, PixelFormat::NV12);
    assert_eq!(n.linesize, vec![8, 8]);
    assert_eq!(n.data.len(), 16);
    let i = VideoFrame::new(7, 4, PixelFormat::I420);
    assert_eq!(i.linesize, vec![7, 3, 3]);
    assert_eq!(i.data.len(), 13);
}

#[test]
fn audio_frame_new_sizes_buffer() {
    let info = AudioInfo::default();
    assert_eq!(info.channels(), 3);
    assert_eq!(info.bytes_per_frame(), 12);
    let f = AudioFrame::new(10, &info);
    assert_eq!(f.data.len(), 10 * 3 * 4);
    assert_eq!(f.sample_rate, 48000);
    assert_eq!(f.speakers, vec![AudioSpeaker::FL, AudioSpeaker::FR, AudioSpeaker::LFE]);
}

#[test]
fn pixel_and_sample_sizes() {
    assert_eq!(PixelFormat::RGBA.bytes_per_pixel(), 4);
    assert_eq!(PixelFormat::Rgb24.bytes_per_pixel(), 3);
    assert_eq!(PixelFormat::NV12.bytes_per_pixel(), 1);
    assert!(PixelFormat::I420.is_planar());
    assert!(!PixelFormat::BGRA.is_planar());
    assert_eq!(AudioFormat::S16.bytes_per_sample(), 2);
    assert_eq!(AudioFormat::F32.bytes_per_sample(), 4);
}

#[test]
fn frame_size_bytes_by_format() {
    let v = VideoInfo::default();
    assert_eq!(v.frame_size_bytes(PixelFormat::NV12), 1920 * 1080 * 3 / 2);
    assert_eq!(v.frame_size_bytes(PixelFormat::RGBA), 1920 * 1080 * 4);
    assert_eq!(v.frame_size_bytes(PixelFormat::YUY2), 1920 * 1080 * 2);
    assert_eq!(v.frame_duration_micros(), 33333);
    assert_eq!(v.frame_duration(), std::time::Duration::from_micros(33_333));
}

#[test]
fn crop_packed_single_row() {
    let mut f = VideoFrame::new(4, 1, PixelFormat::RGBA);
    for (i, b) in f.data.iter_mut().enumerate() {
        *b = i as u8;
    }
    let c = crop_frame(&f, &Crop::new(1, 0, 1, 0));
    assert_eq!(c.width, 2);
    assert_eq!(c.height, 1);
    assert_eq!(&c.data[..8], &[4, 5, 6, 7, 8, 9, 10, 11]);
}

#[test]
fn crop_with_no_crop_copies() {
    let mut f = VideoFrame::new(3, 1, PixelFormat::BGRA);
    f.pts = 77;
    for (i, b) in f.data.iter_mut().enumerate() {
        *b = (i * 3) as u8;
    }
    let c = crop_frame(&f, &Crop::none());
    assert_eq!(c.width, 3);
    assert_eq!(c.pts, 77);
    assert_eq!(c.data, f.data);
}

#[test]
fn background_fill_packed_and_planar() {
    let mut f = VideoFrame::new(2, 1, PixelFormat::RGBA);
    fill_background(&mut f, [1, 2, 3, 4]);
    assert_eq!(f.data, vec![1, 2, 3, 4, 1, 2, 3, 4]);
    let mut n = VideoFrame::new(2, 2, PixelFormat::NV12);
    n.data[0] = 9;
    fill_background(&mut n, [1, 2, 3, 4]);
    assert!(n.data.iter().all(|&b| b == 0));
}

#[test]
fn mixer_takes_longest_input() {
    let m = AudioMixer::new();
    let empty = m.mix(&[]);
    assert_eq!(empty.frames, 1024);
    assert_eq!(empty.data.len(), 1024 * 3 * 4);
    let info = AudioInfo::default();
    let a = AudioFrame::new(100, &info);
    let b = AudioFrame::new(300, &info);
    let mixed = m.mix(&[a, b]);
    assert_eq!(mixed.frames, 300);
    assert_eq!(mixed.speakers, vec![AudioSpeaker::FL, AudioSpeaker::FR]);
    assert_eq!(mixed.data.len(), 300 * 2 * 4);
}
