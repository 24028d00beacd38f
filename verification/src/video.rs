use vstd::prelude::*;
use crate::frame::{VideoFrame, blank_frame, linesize_fits};
use crate::property::{
    F64_ONE_BITS, F64_2160_BITS, F64_4096_BITS, PropertyDef, PropertyDefView, PropertyValue,
    ValueView, defs_view, int_def, int_def_view,
};
use crate::text::{owned, str_eq};
use crate::types::{AudioInfo, PixelFormat, SourceId, VideoInfo};

verus! {

/// Produces frames of a fixed size and format.
pub struct VideoRenderer {
    width: u32,
    height: u32,
    format: PixelFormat,
}

impl VideoRenderer {
    pub closed spec fn size(&self) -> (u32, u32, PixelFormat) {
        (self.width, self.height, self.format)
    }

    pub fn new(width: u32, height: u32, format: PixelFormat) -> (r: VideoRenderer)
        ensures
            r.size() == (width, height, format),
    {
        VideoRenderer { width, height, format }
    }

    /// A blank frame of the renderer's size and format.
    pub fn render(&mut self, sources: &[&VideoFrame]) -> (r: VideoFrame)
        requires
            linesize_fits(old(self).size().0, old(self).size().2),
        ensures
            final(self).size() == old(self).size(),
            blank_frame(r, old(self).size().0, old(self).size().1, old(self).size().2),
    {
        VideoFrame::new(self.width, self.height, self.format)
    }

    /// A blank frame of the given size in the renderer's format.
    pub fn scale(&self, input: &VideoFrame, output_width: u32, output_height: u32) -> (r: VideoFrame)
        requires
            linesize_fits(output_width, self.size().2),
        ensures
            blank_frame(r, output_width, output_height, self.size().2),
    {
        VideoFrame::new(output_width, output_height, self.format)
    }

    /// A blank frame of the input's size in the given format.
    pub fn convert_format(&self, input: &VideoFrame, format: PixelFormat) -> (r: VideoFrame)
        requires
            linesize_fits(input.width, format),
        ensures
            blank_frame(r, input.width, input.height, format),
    {
        VideoFrame::new(input.width, input.height, format)
    }
}

/// A test pattern video source in the default video format. This type keeps
/// the state and settings; the pixels are painted by its owner.
pub struct TestPatternSource {
    id: SourceId,
    name: String,
    video_info: VideoInfo,
    active: bool,
    frame_count: u64,
}

/// Mathematical state of the test pattern source.
pub struct TestPatternView {
    pub id: SourceId,
    pub name: Seq<char>,
    pub video_info: VideoInfo,
    pub active: bool,
    pub frame_count: u64,
}

impl View for TestPatternSource {
    type V = TestPatternView;

    closed spec fn view(&self) -> TestPatternView {
        TestPatternView {
            id: self.id,
            name: self.name@,
            video_info: self.video_info,
            active: self.active,
            frame_count: self.frame_count,
        }
    }
}

/// The width and height settings of the test pattern.
pub open spec fn pattern_properties() -> Seq<PropertyDefView> {
    seq![
        int_def_view("width"@, "Width"@, 1920, F64_ONE_BITS, F64_4096_BITS),
        int_def_view("height"@, "Height"@, 1080, F64_ONE_BITS, F64_2160_BITS),
    ]
}

impl TestPatternSource {
    /// An inactive source in the default video format (1920x1080 NV12).
    pub fn new(id: SourceId, name: String) -> (r: TestPatternSource)
        ensures
            r@.id == id,
            r@.name == name@,
            r@.video_info.width == 1920,
            r@.video_info.height == 1080,
            r@.video_info.fps_num == 30,
            r@.video_info.fps_den == 1,
            r@.video_info.format == PixelFormat::NV12,
            !r@.active,
            r@.frame_count == 0,
    {
        TestPatternSource { id, name, video_info: VideoInfo::default(), active: false, frame_count: 0 }
    }

    pub fn id(&self) -> (r: SourceId)
        ensures
            r == self@.id,
    {
        self.id
    }

    pub fn name(&self) -> (r: &str)
        ensures
            r@ == self@.name,
    {
        self.name.as_str()
    }

    pub fn set_name(&mut self, name: String)
        ensures
            final(self)@ == (TestPatternView { name: name@, ..old(self)@ }),
    {
        self.name = name;
    }

    pub fn get_video_info(&self) -> (r: Option<VideoInfo>)
        ensures
            r == Some(self@.video_info),
    {
        Some(self.video_info)
    }

    pub fn get_audio_info(&self) -> (r: Option<AudioInfo>)
        ensures
            r is None,
    {
        None
    }

    pub fn activate(&mut self)
        ensures
            final(self)@ == (TestPatternView { active: true, ..old(self)@ }),
    {
        self.active = true;
    }

    pub fn deactivate(&mut self)
        ensures
            final(self)@ == (TestPatternView { active: false, ..old(self)@ }),
    {
        self.active = false;
    }

    pub fn is_active(&self) -> (r: bool)
        ensures
            r == self@.active,
    {
        self.active
    }

    pub fn frame_count(&self) -> (r: u64)
        ensures
            r == self@.frame_count,
    {
        self.frame_count
    }

    /// Width and height.
    pub fn properties_definition(&self) -> (r: Vec<PropertyDef>)
        ensures
            defs_view(r@) == pattern_properties(),
    {
        let r = vec![
            int_def("width", "Width", 1920, F64_ONE_BITS, F64_4096_BITS),
            int_def("height", "Height", 1080, F64_ONE_BITS, F64_2160_BITS),
        ];
        assert(defs_view(r@) =~= pattern_properties());
        r
    }

    /// The width or height.
    pub fn get_property(&self, name: &str) -> (r: Option<PropertyValue>)
        ensures
            name@ == "width"@ ==> (r matches Some(v) && v@ == ValueView::Int(
                self@.video_info.width as i64,
            )),
            name@ != "width"@ && name@ == "height"@ ==> (r matches Some(v) && v@ == ValueView::Int(
                self@.video_info.height as i64,
            )),
            name@ != "width"@ && name@ != "height"@ ==> r is None,
    {
        if str_eq(name, "width") {
            Some(PropertyValue::Int(self.video_info.width as i64))
        } else if str_eq(name, "height") {
            Some(PropertyValue::Int(self.video_info.height as i64))
        } else {
            None
        }
    }

    /// Sets the width or height from an integer (truncated to `u32`);
    /// anything else is ignored.
    pub fn set_property(&mut self, name: &str, value: PropertyValue)
        ensures
            final(self)@ == (if name@ == "width"@ {
                match value@ {
                    ValueView::Int(w) => TestPatternView {
                        video_info: VideoInfo { width: w as u32, ..old(self)@.video_info },
                        ..old(self)@
                    },
                    _ => old(self)@,
                }
            } else if name@ == "height"@ {
                match value@ {
                    ValueView::Int(h) => TestPatternView {
                        video_info: VideoInfo { height: h as u32, ..old(self)@.video_info },
                        ..old(self)@
                    },
                    _ => old(self)@,
                }
            } else {
                old(self)@
            }),
    {
        if str_eq(name, "width") {
            if let PropertyValue::Int(w) = value {
                self.video_info.width = w as u32;
            }
        } else if str_eq(name, "height") {
            if let PropertyValue::Int(h) = value {
                self.video_info.height = h as u32;
            }
        }
    }

    /// The blank frame the pattern is painted on.
    pub fn blank_frame(&self) -> (r: VideoFrame)
        requires
            linesize_fits(self@.video_info.width, self@.video_info.format),
        ensures
            blank_frame(r, self@.video_info.width, self@.video_info.height, self@.video_info.format),
    {
        VideoFrame::new(self.video_info.width, self.video_info.height, self.video_info.format)
    }

    /// Counts a painted frame.
    pub fn finish_frame(&mut self)
        requires
            old(self)@.frame_count < u64::MAX,
        ensures
            final(self)@ == (TestPatternView {
                frame_count: (old(self)@.frame_count + 1) as u64,
                ..old(self)@
            }),
    {
        self.frame_count = self.frame_count + 1;
    }
}

/// A test pattern source named `Test Pattern`.
pub fn create_test_pattern_source(id: SourceId) -> (r: TestPatternSource)
    ensures
        r@.id == id,
        r@.name == "Test Pattern"@,
        !r@.active,
{
    TestPatternSource::new(id, owned("Test Pattern"))
}

} // verus!
