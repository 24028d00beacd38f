use robs::blit::{blit_fits_exec, blit_scaled};
use robs::frame::VideoFrame;
use robs::render::{crop_fits_exec, crop_frame};
use robs::scene_item::Crop;
use robs::types::PixelFormat;

fn frame(width: u32, height: u32, format: PixelFormat, data: Vec<u8>) -> VideoFrame {
    let mut f = VideoFrame::new(width, height, format);
    f.data = data;
    f
}

fn half(bottom: [u8; 4], top: [u8; 4]) -> [u8; 4] {
    [
        ((bottom[0] as u16 + top[0] as u16) / 2) as u8,
        ((bottom[1] as u16 + top[1] as u16) / 2) as u8,
        ((bottom[2] as u16 + top[2] as u16) / 2) as u8,
        255,
    ]
}

#[test]
fn crop_fits_rows_of_packed_frame() {
    let src = frame(4, 2, PixelFormat::RGBA, (0..32).collect());
    let one_row = Crop { left: 1, top: 1, right: 1, bottom: 0 };
    assert!(crop_fits_exec(&src, &one_row));
    let r = crop_frame(&src, &one_row);
    assert_eq!(r.width, 2);
    assert_eq!(r.height, 1);
    assert_eq!(r.data, vec![20, 21, 22, 23, 24, 25, 26, 27]);
    // Every row of the cropped rectangle is copied.
    let two_rows = Crop { left: 1, top: 0, right: 1, bottom: 0 };
    assert!(crop_fits_exec(&src, &two_rows));
    let r = crop_frame(&src, &two_rows);
    assert_eq!(r.height, 2);
    assert_eq!(r.data, vec![4, 5, 6, 7, 8, 9, 10, 11, 20, 21, 22, 23, 24, 25, 26, 27]);
    // A crop that removes everything always fits.
    let all = Crop { left: 4, top: 0, right: 0, bottom: 0 };
    assert!(crop_fits_exec(&src, &all));
}

#[test]
fn crop_fits_needs_source_bytes() {
    let short = frame(4, 2, PixelFormat::RGBA, vec![0; 16]);
    let bottom_row = Crop { left: 0, top: 1, right: 0, bottom: 0 };
    assert!(!crop_fits_exec(&short, &bottom_row));
    let top_row = Crop { left: 0, top: 0, right: 0, bottom: 1 };
    assert!(crop_fits_exec(&short, &top_row));
}

#[test]
fn blit_blends_visible_opaque_pixels_only() {
    let mut out = frame(3, 1, PixelFormat::RGBA, vec![100; 12]);
    // Two source pixels: the first opaque, the second fully transparent.
    let src = frame(2, 1, PixelFormat::RGBA, vec![200, 0, 50, 255, 9, 9, 9, 0]);
    assert!(blit_fits_exec(&out, &src, 1, 0));
    blit_scaled(&mut out, &src, 1, 0, half);
    assert_eq!(out.data, vec![100, 100, 100, 100, 150, 50, 75, 255, 100, 100, 100, 100]);
}

#[test]
fn blit_clips_at_the_edges() {
    let mut out = frame(2, 1, PixelFormat::RGBA, vec![0; 8]);
    let src = frame(2, 1, PixelFormat::RGBA, vec![10, 10, 10, 255, 20, 20, 20, 255]);
    assert!(blit_fits_exec(&out, &src, -1, 0));
    blit_scaled(&mut out, &src, -1, 0, |_b: [u8; 4], t: [u8; 4]| t);
    assert_eq!(out.data, vec![20, 20, 20, 255, 0, 0, 0, 0]);
    let mut off = frame(2, 1, PixelFormat::RGBA, vec![0; 8]);
    blit_scaled(&mut off, &src, 5, 0, |_b: [u8; 4], t: [u8; 4]| t);
    assert_eq!(off.data, vec![0; 8]);
}

#[test]
fn blit_leaves_other_formats_alone() {
    let mut out = frame(2, 1, PixelFormat::NV12, vec![7; 4]);
    let src = frame(2, 1, PixelFormat::RGBA, vec![1; 8]);
    assert!(blit_fits_exec(&out, &src, 0, 0));
    blit_scaled(&mut out, &src, 0, 0, |_b: [u8; 4], t: [u8; 4]| t);
    assert_eq!(out.data, vec![7; 4]);
}

#[test]
fn blit_refuses_rows_beyond_the_buffer() {
    // The output buffer holds one row; an opaque pixel on the second row does not fit.
    let out = frame(2, 2, PixelFormat::RGBA, vec![0; 8]);
    let src = frame(1, 1, PixelFormat::RGBA, vec![1, 1, 1, 255]);
    assert!(!blit_fits_exec(&out, &src, 0, 1));
    let clear = frame(1, 1, PixelFormat::RGBA, vec![1, 1, 1, 0]);
    assert!(blit_fits_exec(&out, &clear, 0, 1));
    assert!(blit_fits_exec(&out, &src, 0, 0));
}

#[test]
fn crop_keeps_every_row() {
    let mut src = frame(3, 2, PixelFormat::RGBA, (0..24).collect());
    src.pts = 7;
    src.duration = 3;
    let c = Crop::new(1, 0, 1, 0);
    assert!(crop_fits_exec(&src, &c));
    let r = crop_frame(&src, &c);
    assert_eq!((r.width, r.height, r.format), (1, 2, PixelFormat::RGBA));
    assert_eq!((r.pts, r.duration), (7, 3));
    assert_eq!(r.data, vec![4, 5, 6, 7, 16, 17, 18, 19]);
}

#[test]
fn crop_nothing_keeps_planar_frames() {
    let nv12 = frame(4, 2, PixelFormat::NV12, (0..12).collect());
    assert!(crop_fits_exec(&nv12, &Crop::none()));
    assert_eq!(crop_frame(&nv12, &Crop::none()).data, nv12.data);
    let i420 = frame(4, 2, PixelFormat::I420, (0..12).collect());
    assert!(crop_fits_exec(&i420, &Crop::none()));
    assert_eq!(crop_frame(&i420, &Crop::none()).data, i420.data);
}

#[test]
fn crop_nv12_takes_chroma_pairs() {
    // 4x4 luma, then two rows of two UV pairs.
    let src = frame(4, 4, PixelFormat::NV12, (0..24).collect());
    let c = Crop::new(2, 2, 0, 0);
    let r = crop_frame(&src, &c);
    assert_eq!((r.width, r.height), (2, 2));
    assert_eq!(r.data, vec![10, 11, 14, 15, 22, 23]);
}

#[test]
fn crop_to_one_row_keeps_a_row_per_plane() {
    // A one-row NV12 result holds a luma row and a chroma row, as
    // `VideoFrame::new` makes it.
    let src = frame(4, 2, PixelFormat::NV12, (0..12).collect());
    let c = Crop::new(0, 0, 0, 1);
    let r = crop_frame(&src, &c);
    assert_eq!((r.width, r.height), (4, 1));
    assert_eq!(r.data, vec![0, 1, 2, 3, 0, 0, 0, 0]);
}
