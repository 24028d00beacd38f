use vstd::prelude::*;
use crate::names::string_views;
use crate::property::{
    defs_view, int_def, int_def_view, pairs_view, PropertyDef, PropertyDefView, PropertyType,
    PropertyValue, ValueView, F64_TEN_BITS, F64_ZERO_BITS,
};
use crate::text::{owned, push_arg, push_owned_arg, push_str, str_eq};
use crate::types::{AudioInfo, ColorSpace, PixelFormat, SourceId, VideoInfo, VideoRange};

verus! {

/// The video a test pattern source produces: 1280x720 BGRA at 30 fps, full
/// range sRGB.
pub open spec fn pattern_video_info() -> VideoInfo {
    VideoInfo {
        width: 1280,
        height: 720,
        fps_num: 30,
        fps_den: 1,
        format: PixelFormat::BGRA,
        range: VideoRange::Full,
        color_space: ColorSpace::SRGB,
    }
}

/// A moving colour gradient for debugging. This type keeps the state and the
/// frame numbering; the pixels are painted by its owner.
pub struct TestPatternSource {
    id: SourceId,
    name: String,
    active: bool,
    video_info: VideoInfo,
    frame_count: u64,
}

/// Mathematical state of a test pattern source.
pub struct PatternView {
    pub id: SourceId,
    pub name: Seq<char>,
    pub active: bool,
    pub video_info: VideoInfo,
    pub frame_count: u64,
}

impl View for TestPatternSource {
    type V = PatternView;

    closed spec fn view(&self) -> PatternView {
        PatternView {
            id: self.id,
            name: self.name@,
            active: self.active,
            video_info: self.video_info,
            frame_count: self.frame_count,
        }
    }
}

/// Presentation time of frame `n` at 30 fps, in milliseconds.
pub open spec fn pattern_pts(n: u64) -> i64 {
    (n * 1000 / 30) as i64
}

impl TestPatternSource {
    /// An inactive source of 1280x720 BGRA frames.
    pub fn new(id: SourceId, name: String) -> (r: TestPatternSource)
        ensures
            r@ == (PatternView {
                id,
                name: name@,
                active: false,
                video_info: pattern_video_info(),
                frame_count: 0,
            }),
    {
        TestPatternSource {
            id,
            name,
            active: false,
            video_info: VideoInfo {
                width: 1280,
                height: 720,
                fps_num: 30,
                fps_den: 1,
                format: PixelFormat::BGRA,
                range: VideoRange::Full,
                color_space: ColorSpace::SRGB,
            },
            frame_count: 0,
        }
    }

    pub fn id(&self) -> (r: SourceId)
        ensures
            r == self@.id,
    {
        self.id
    }

    pub fn name(&self) -> (r: &str)
        ensures
            r@ == self@.name,
    {
        self.name.as_str()
    }

    pub fn set_name(&mut self, name: String)
        ensures
            final(self)@ == (PatternView { name: name@, ..old(self)@ }),
    {
        self.name = name;
    }

    pub fn get_video_info(&self) -> (r: Option<VideoInfo>)
        ensures
            r == Some(self@.video_info),
    {
        Some(self.video_info)
    }

    /// A test pattern has no audio.
    pub fn get_audio_info(&self) -> (r: Option<AudioInfo>)
        ensures
            r is None,
    {
        None
    }

    /// Starts producing frames, numbering them from 1 again.
    pub fn activate(&mut self)
        ensures
            final(self)@ == (PatternView { active: true, frame_count: 0, ..old(self)@ }),
    {
        self.active = true;
        self.frame_count = 0;
    }

    pub fn deactivate(&mut self)
        ensures
            final(self)@ == (PatternView { active: false, ..old(self)@ }),
    {
        self.active = false;
    }

    /// How many frames were numbered since activation.
    pub fn frame_count(&self) -> (r: u64)
        ensures
            r == self@.frame_count,
    {
        self.frame_count
    }

    pub fn is_active(&self) -> (r: bool)
        ensures
            r == self@.active,
    {
        self.active
    }

    /// A test pattern has no settings.
    pub fn properties_definition(&self) -> (r: Vec<PropertyDef>)
        ensures
            r@.len() == 0,
    {
        Vec::new()
    }

    pub fn get_property(&self, name: &str) -> (r: Option<PropertyValue>)
        ensures
            r is None,
    {
        None
    }

    /// Settings are ignored.
    pub fn set_property(&mut self, name: &str, value: PropertyValue)
        ensures
            final(self)@ == old(self)@,
    {
    }

    /// Numbers the next frame while active: the count grows by one and the
    /// frame's presentation time in milliseconds is returned; nothing while
    /// inactive.
    pub fn next_frame(&mut self) -> (r: Option<(u64, i64)>)
        requires
            old(self)@.active ==> old(self)@.frame_count < u64::MAX / 1000,
        ensures
            !old(self)@.active ==> r is None && final(self)@ == old(self)@,
            old(self)@.active ==> final(self)@ == (PatternView {
                frame_count: (old(self)@.frame_count + 1) as u64,
                ..old(self)@
            }) && r == Some(
                (final(self)@.frame_count, pattern_pts(final(self)@.frame_count)),
            ),
    {
        if !self.active {
            return None;
        }
        self.frame_count = self.frame_count + 1;
        let pts = (self.frame_count * 1000 / 30) as i64;
        Some((self.frame_count, pts))
    }
}


/// The video a screen or window capture delivers: 1920x1080 BGRA at 30 fps,
/// full range sRGB.
pub open spec fn capture_video_info() -> VideoInfo {
    VideoInfo {
        width: 1920,
        height: 1080,
        fps_num: 30,
        fps_den: 1,
        format: PixelFormat::BGRA,
        range: VideoRange::Full,
        color_space: ColorSpace::SRGB,
    }
}

fn capture_info() -> (r: VideoInfo)
    ensures
        r == capture_video_info(),
{
    VideoInfo {
        width: 1920,
        height: 1080,
        fps_num: 30,
        fps_den: 1,
        format: PixelFormat::BGRA,
        range: VideoRange::Full,
        color_space: ColorSpace::SRGB,
    }
}

/// The `ffmpeg` arguments that write the grabbed pictures to standard output
/// as raw BGRA.
pub open spec fn raw_bgra_output_args() -> Seq<Seq<char>> {
    seq!["-f"@, "rawvideo"@, "-pix_fmt"@, "bgra"@, "-"@]
}

fn push_raw_bgra_output(a: &mut Vec<String>)
    ensures
        string_views(final(a)@) == string_views(old(a)@) + raw_bgra_output_args(),
{
    let ghost before = string_views(a@);
    push_arg(a, "-f");
    push_arg(a, "rawvideo");
    push_arg(a, "-pix_fmt");
    push_arg(a, "bgra");
    push_arg(a, "-");
    assert(string_views(a@) =~= before + raw_bgra_output_args());
}

/// Captures a whole monitor through `ffmpeg`'s `gdigrab`. This type keeps the
/// settings, state and frame numbering; its owner runs the process.
pub struct MonitorCaptureSource {
    id: SourceId,
    name: String,
    monitor_index: u32,
    active: bool,
    video_info: VideoInfo,
    frame_count: u64,
}

/// Mathematical state of a monitor capture.
pub struct MonitorCaptureView {
    pub id: SourceId,
    pub name: Seq<char>,
    pub monitor_index: u32,
    pub active: bool,
    pub video_info: VideoInfo,
    pub frame_count: u64,
}

impl View for MonitorCaptureSource {
    type V = MonitorCaptureView;

    closed spec fn view(&self) -> MonitorCaptureView {
        MonitorCaptureView {
            id: self.id,
            name: self.name@,
            monitor_index: self.monitor_index,
            active: self.active,
            video_info: self.video_info,
            frame_count: self.frame_count,
        }
    }
}

/// The `gdigrab` command line that grabs the desktop with the mouse pointer
/// at 30 fps.
pub open spec fn monitor_capture_args() -> Seq<Seq<char>> {
    seq!["-f"@, "gdigrab"@, "-framerate"@, "30"@, "-draw_mouse"@, "1"@, "-i"@, "desktop"@]
        + raw_bgra_output_args()
}

impl MonitorCaptureSource {
    /// An inactive capture of monitor `monitor_index`.
    pub fn new(id: SourceId, name: String, monitor_index: u32) -> (r: MonitorCaptureSource)
        ensures
            r@ == (MonitorCaptureView {
                id,
                name: name@,
                monitor_index,
                active: false,
                video_info: capture_video_info(),
                frame_count: 0,
            }),
    {
        MonitorCaptureSource {
            id,
            name,
            monitor_index,
            active: false,
            video_info: capture_info(),
            frame_count: 0,
        }
    }

    pub fn id(&self) -> (r: SourceId)
        ensures
            r == self@.id,
    {
        self.id
    }

    pub fn name(&self) -> (r: &str)
        ensures
            r@ == self@.name,
    {
        self.name.as_str()
    }

    pub fn set_name(&mut self, name: String)
        ensures
            final(self)@ == (MonitorCaptureView { name: name@, ..old(self)@ }),
    {
        self.name = name;
    }

    pub fn get_video_info(&self) -> (r: Option<VideoInfo>)
        ensures
            r == Some(self@.video_info),
    {
        Some(self.video_info)
    }

    /// A screen capture has no audio.
    pub fn get_audio_info(&self) -> (r: Option<AudioInfo>)
        ensures
            r is None,
    {
        None
    }

    pub fn is_active(&self) -> (r: bool)
        ensures
            r == self@.active,
    {
        self.active
    }

    pub fn frame_count(&self) -> (r: u64)
        ensures
            r == self@.frame_count,
    {
        self.frame_count
    }

    /// Becomes active with the count reset, and returns the `ffmpeg`
    /// arguments of the grab to start.
    pub fn activate(&mut self) -> (r: Vec<String>)
        ensures
            final(self)@ == (MonitorCaptureView { active: true, frame_count: 0, ..old(self)@ }),
            string_views(r@) == monitor_capture_args(),
    {
        self.active = true;
        self.frame_count = 0;
        let mut a: Vec<String> = Vec::new();
        push_arg(&mut a, "-f");
        push_arg(&mut a, "gdigrab");
        push_arg(&mut a, "-framerate");
        push_arg(&mut a, "30");
        push_arg(&mut a, "-draw_mouse");
        push_arg(&mut a, "1");
        push_arg(&mut a, "-i");
        push_arg(&mut a, "desktop");
        push_raw_bgra_output(&mut a);
        assert(string_views(a@) =~= monitor_capture_args());
        a
    }

    /// Becomes inactive once the grab is stopped, with the count reset.
    pub fn deactivate(&mut self)
        ensures
            final(self)@ == (MonitorCaptureView { active: false, frame_count: 0, ..old(self)@ }),
    {
        self.active = false;
        self.frame_count = 0;
    }

    /// Numbers a picture read from the grab and returns its presentation
    /// time in milliseconds (30 fps).
    pub fn frame_read(&mut self) -> (r: i64)
        requires
            old(self)@.frame_count < u64::MAX / 1000,
        ensures
            final(self)@ == (MonitorCaptureView {
                frame_count: (old(self)@.frame_count + 1) as u64,
                ..old(self)@
            }),
            r == pattern_pts(final(self)@.frame_count),
    {
        self.frame_count = self.frame_count + 1;
        (self.frame_count * 1000 / 30) as i64
    }

    /// The monitor number, from 0 to 10.
    pub fn properties_definition(&self) -> (r: Vec<PropertyDef>)
        ensures
            defs_view(r@) == seq![
                int_def_view("monitor"@, "Monitor"@, self@.monitor_index as i64, F64_ZERO_BITS, F64_TEN_BITS),
            ],
    {
        let r = vec![int_def("monitor", "Monitor", self.monitor_index as i64, F64_ZERO_BITS, F64_TEN_BITS)];
        assert(defs_view(r@) =~= seq![
            int_def_view("monitor"@, "Monitor"@, self@.monitor_index as i64, F64_ZERO_BITS, F64_TEN_BITS),
        ]);
        r
    }

    pub fn get_property(&self, name: &str) -> (r: Option<PropertyValue>)
        ensures
            name@ == "monitor"@ ==> (r matches Some(v) && v@ == ValueView::Int(self@.monitor_index as i64)),
            name@ != "monitor"@ ==> r is None,
    {
        if str_eq(name, "monitor") {
            Some(PropertyValue::Int(self.monitor_index as i64))
        } else {
            None
        }
    }

    /// Sets the monitor from an integer value (keeping its low 32 bits, as
    /// `as u32` does); anything else is ignored.
    pub fn set_property(&mut self, name: &str, value: PropertyValue)
        ensures
            final(self)@ == (if name@ == "monitor"@ {
                match value@ {
                    ValueView::Int(m) => MonitorCaptureView { monitor_index: m as u32, ..old(self)@ },
                    _ => old(self)@,
                }
            } else {
                old(self)@
            }),
    {
        if str_eq(name, "monitor") {
            if let PropertyValue::Int(m) = value {
                self.monitor_index = m as u32;
            }
        }
    }
}

/// Captures one window, found by its title, through `ffmpeg`'s `gdigrab`.
/// This type keeps the settings, state and frame numbering; its owner runs
/// the process.
pub struct WindowCaptureSource {
    id: SourceId,
    name: String,
    window_title: String,
    active: bool,
    video_info: VideoInfo,
    frame_count: u64,
}

/// Mathematical state of a window capture.
pub struct WindowCaptureView {
    pub id: SourceId,
    pub name: Seq<char>,
    pub window_title: Seq<char>,
    pub active: bool,
    pub video_info: VideoInfo,
    pub frame_count: u64,
}

impl View for WindowCaptureSource {
    type V = WindowCaptureView;

    closed spec fn view(&self) -> WindowCaptureView {
        WindowCaptureView {
            id: self.id,
            name: self.name@,
            window_title: self.window_title@,
            active: self.active,
            video_info: self.video_info,
            frame_count: self.frame_count,
        }
    }
}

/// The `gdigrab` command line that grabs the window titled `title` at 30 fps
/// from its top-left corner.
pub open spec fn window_capture_args(title: Seq<char>) -> Seq<Seq<char>> {
    seq![
        "-f"@,
        "gdigrab"@,
        "-framerate"@,
        "30"@,
        "-offset_x"@,
        "0"@,
        "-offset_y"@,
        "0"@,
        "-i"@,
        "title="@ + title,
    ] + raw_bgra_output_args()
}

/// The window title property.
pub open spec fn window_property(title: Seq<char>) -> PropertyDefView {
    PropertyDefView {
        name: "window"@,
        display_name: "Window Title"@,
        description: Seq::empty(),
        type_: PropertyType::String,
        default: ValueView::String(title),
        min: None,
        max: None,
        step: None,
        enum_values: Seq::empty(),
        visible: true,
        enabled: true,
    }
}

impl WindowCaptureSource {
    /// An inactive capture of the window titled `window_title`.
    pub fn new(id: SourceId, name: String, window_title: String) -> (r: WindowCaptureSource)
        ensures
            r@ == (WindowCaptureView {
                id,
                name: name@,
                window_title: window_title@,
                active: false,
                video_info: capture_video_info(),
                frame_count: 0,
            }),
    {
        WindowCaptureSource {
            id,
            name,
            window_title,
            active: false,
            video_info: capture_info(),
            frame_count: 0,
        }
    }

    pub fn id(&self) -> (r: SourceId)
        ensures
            r == self@.id,
    {
        self.id
    }

    pub fn name(&self) -> (r: &str)
        ensures
            r@ == self@.name,
    {
        self.name.as_str()
    }

    pub fn set_name(&mut self, name: String)
        ensures
            final(self)@ == (WindowCaptureView { name: name@, ..old(self)@ }),
    {
        self.name = name;
    }

    pub fn window_title(&self) -> (r: &str)
        ensures
            r@ == self@.window_title,
    {
        self.window_title.as_str()
    }

    pub fn get_video_info(&self) -> (r: Option<VideoInfo>)
        ensures
            r == Some(self@.video_info),
    {
        Some(self.video_info)
    }

    /// A window capture has no audio.
    pub fn get_audio_info(&self) -> (r: Option<AudioInfo>)
        ensures
            r is None,
    {
        None
    }

    pub fn is_active(&self) -> (r: bool)
        ensures
            r == self@.active,
    {
        self.active
    }

    pub fn frame_count(&self) -> (r: u64)
        ensures
            r == self@.frame_count,
    {
        self.frame_count
    }

    /// Becomes active with the count reset, and returns the `ffmpeg`
    /// arguments of the grab to start.
    pub fn activate(&mut self) -> (r: Vec<String>)
        ensures
            final(self)@ == (WindowCaptureView { active: true, frame_count: 0, ..old(self)@ }),
            string_views(r@) == window_capture_args(old(self)@.window_title),
    {
        self.active = true;
        self.frame_count = 0;
        let mut a: Vec<String> = Vec::new();
        push_arg(&mut a, "-f");
        push_arg(&mut a, "gdigrab");
        push_arg(&mut a, "-framerate");
        push_arg(&mut a, "30");
        push_arg(&mut a, "-offset_x");
        push_arg(&mut a, "0");
        push_arg(&mut a, "-offset_y");
        push_arg(&mut a, "0");
        push_arg(&mut a, "-i");
        let mut input = owned("title=");
        push_str(&mut input, self.window_title.as_str());
        push_owned_arg(&mut a, input);
        push_raw_bgra_output(&mut a);
        assert(string_views(a@) =~= window_capture_args(old(self)@.window_title));
        a
    }

    /// Becomes inactive once the grab is stopped, with the count reset.
    pub fn deactivate(&mut self)
        ensures
            final(self)@ == (WindowCaptureView { active: false, frame_count: 0, ..old(self)@ }),
    {
        self.active = false;
        self.frame_count = 0;
    }

    /// Numbers a picture read from the grab and returns its presentation
    /// time in milliseconds (30 fps).
    pub fn frame_read(&mut self) -> (r: i64)
        requires
            old(self)@.frame_count < u64::MAX / 1000,
        ensures
            final(self)@ == (WindowCaptureView {
                frame_count: (old(self)@.frame_count + 1) as u64,
                ..old(self)@
            }),
            r == pattern_pts(final(self)@.frame_count),
    {
        self.frame_count = self.frame_count + 1;
        (self.frame_count * 1000 / 30) as i64
    }

    /// The window title.
    pub fn properties_definition(&self) -> (r: Vec<PropertyDef>)
        ensures
            defs_view(r@) == seq![window_property(self@.window_title)],
    {
        let d = PropertyDef {
            name: owned("window"),
            display_name: owned("Window Title"),
            description: String::new(),
            type_: PropertyType::String,
            default: PropertyValue::String(self.window_title.clone()),
            min: None,
            max: None,
            step: None,
            enum_values: Vec::new(),
            visible: true,
            enabled: true,
        };
        assert(pairs_view(d.enum_values@) =~= Seq::empty());
        let r = vec![d];
        assert(defs_view(r@) =~= seq![window_property(self@.window_title)]);
        r
    }

    pub fn get_property(&self, name: &str) -> (r: Option<PropertyValue>)
        ensures
            name@ == "window"@ ==> (r matches Some(v) && v@ == ValueView::String(self@.window_title)),
            name@ != "window"@ ==> r is None,
    {
        if str_eq(name, "window") {
            Some(PropertyValue::String(self.window_title.clone()))
        } else {
            None
        }
    }

    /// Sets the title from a string value; anything else is ignored.
    pub fn set_property(&mut self, name: &str, value: PropertyValue)
        ensures
            final(self)@ == (if name@ == "window"@ {
                match value@ {
                    ValueView::String(t) => WindowCaptureView { window_title: t, ..old(self)@ },
                    _ => old(self)@,
                }
            } else {
                old(self)@
            }),
    {
        if str_eq(name, "window") {
            if let PropertyValue::String(t) = value {
                self.window_title = t;
            }
        }
    }
}

} // verus!
