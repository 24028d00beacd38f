use robs::frame::VideoFrame;
use robs::resample::{scale_fits_exec, scale_frame};
use robs::scene_item::Scale;
use robs::types::PixelFormat;

fn frame(width: u32, height: u32, format: PixelFormat, data: Vec<u8>) -> VideoFrame {
    let mut f = VideoFrame::new(width, height, format);
    f.data = data;
    f
}

fn unit_scale() -> Scale {
    Scale { x: 0x3f80_0000, y: 0x3f80_0000 }
}

fn scale(src: &VideoFrame, tw: u32, th: u32) -> Option<VideoFrame> {
    if scale_fits_exec(src, tw, th) {
        Some(scale_frame(src, unit_scale(), tw, th))
    } else {
        None
    }
}

#[test]
fn scale_blends_black_and_white() {
    let mut src = frame(2, 1, PixelFormat::RGBA, vec![0, 0, 0, 255, 255, 255, 255, 255]);
    src.pts = 42;
    src.duration = 7;
    let r = scale(&src, 3, 1).unwrap();
    assert_eq!(r.width, 3);
    assert_eq!(r.height, 1);
    assert_eq!(r.format, PixelFormat::RGBA);
    assert_eq!(r.pts, 42);
    assert_eq!(r.duration, 7);
    assert_eq!(r.linesize, vec![12]);
    assert_eq!(r.data, vec![0, 0, 0, 255, 170, 170, 170, 255, 255, 255, 255, 255]);
}

#[test]
fn scale_fills_every_row() {
    let src = frame(
        2,
        2,
        PixelFormat::BGRA,
        vec![0, 10, 20, 255, 100, 110, 120, 255, 200, 210, 220, 255, 40, 50, 60, 255],
    );
    let r = scale(&src, 4, 2).unwrap();
    assert_eq!(r.data.len(), 4 * 4 * 2);
    assert_eq!(
        r.data,
        vec![
            0, 10, 20, 255, 50, 60, 70, 255, 100, 110, 120, 255, 100, 110, 120, 255, 200, 210, 220, 255, 120, 130,
            140, 255, 40, 50, 60, 255, 40, 50, 60, 255,
        ]
    );
}

#[test]
fn scale_to_same_size_keeps_the_frame() {
    let src = frame(3, 2, PixelFormat::Rgb24, (0..18).collect());
    let r = scale(&src, 3, 2).unwrap();
    assert_eq!(r.data, src.data);
}

#[test]
fn scale_nv12_planes() {
    let src = frame(4, 2, PixelFormat::NV12, vec![10, 20, 30, 40, 50, 60, 70, 80, 100, 200, 120, 220]);
    let r = scale(&src, 2, 2).unwrap();
    assert_eq!(r.data, vec![10, 30, 50, 70, 100, 200]);
}

#[test]
fn scale_i420_planes() {
    let src = frame(2, 2, PixelFormat::I420, vec![0, 100, 200, 50, 80, 160]);
    let r = scale(&src, 4, 2).unwrap();
    assert_eq!(r.data, vec![0, 50, 100, 100, 200, 125, 50, 50, 80, 80, 160, 160]);
}

#[test]
fn scale_zero_target_gives_blank_pixel() {
    let mut src = frame(4, 1, PixelFormat::RGBA, (0..16).collect());
    src.pts = 9;
    let r = scale(&src, 0, 3).unwrap();
    assert_eq!(r.width, 1);
    assert_eq!(r.height, 1);
    assert_eq!(r.pts, 0);
    assert_eq!(r.data, vec![0, 0, 0, 0]);
}

#[test]
fn scale_refuses_what_the_source_cannot_give() {
    // The second row of the source is missing.
    let short = frame(2, 2, PixelFormat::RGBA, vec![0; 8]);
    assert!(scale(&short, 2, 2).is_none());
    // A source with no rows.
    let empty = frame(4, 0, PixelFormat::RGBA, vec![]);
    assert!(scale(&empty, 2, 1).is_none());
    // NV12 chroma needs two source rows.
    let thin = frame(2, 1, PixelFormat::NV12, vec![1, 2, 3, 4]);
    assert!(scale(&thin, 2, 2).is_none());
    // Without chroma in the output, one row is enough.
    assert!(scale(&thin, 2, 1).is_some());
}
