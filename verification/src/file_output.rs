use vstd::prelude::*;
use crate::names::string_views;
use crate::property::{
    PropertyDef, PropertyDefView, PropertyType, PropertyValue, ValueView, defs_view, enum_def,
    enum_def_view, pairs_view, string_pair,
};
use crate::text::{decimal, decimal_pair, decimal_string, owned, push_arg, push_owned_arg, push_str, str_eq};
use crate::types::OutputId;

verus! {

/// What a recording has written so far.
#[derive(Clone, Copy, Debug, PartialEq, Eq, Structural)]
pub struct FileOutputStats {
    pub bytes_written: u64,
    pub frames_written: u64,
    pub duration_ms: u64,
}

impl Default for FileOutputStats {
    /// Nothing written.
    fn default() -> (r: FileOutputStats)
        ensures
            r == (FileOutputStats { bytes_written: 0, frames_written: 0, duration_ms: 0 }),
    {
        FileOutputStats { bytes_written: 0, frames_written: 0, duration_ms: 0 }
    }
}

/// A recording to a file through an external `ffmpeg` process. This type
/// keeps the settings and figures and computes the command line; the process
/// is driven by its owner. `path` is the file path without extension.
pub struct FileOutput {
    id: OutputId,
    name: String,
    path: String,
    format: String,
    video_encoder: String,
    audio_encoder: String,
    active: bool,
    stats: FileOutputStats,
}

/// Mathematical state of a file output.
pub struct FileOutputView {
    pub id: OutputId,
    pub name: Seq<char>,
    pub path: Seq<char>,
    pub format: Seq<char>,
    pub video_encoder: Seq<char>,
    pub audio_encoder: Seq<char>,
    pub active: bool,
    pub stats: FileOutputStats,
}

impl View for FileOutput {
    type V = FileOutputView;

    closed spec fn view(&self) -> FileOutputView {
        FileOutputView {
            id: self.id,
            name: self.name@,
            path: self.path@,
            format: self.format@,
            video_encoder: self.video_encoder@,
            audio_encoder: self.audio_encoder@,
            active: self.active,
            stats: self.stats,
        }
    }
}

/// The file written: the path, a dot and the container format.
pub open spec fn output_path_spec(s: FileOutputView) -> Seq<char> {
    s.path + "."@ + s.format
}

/// The video encoder options: NVENC at constant quality 23 when selected,
/// else libx264 `fast` at CRF 23.
pub open spec fn video_encoder_args(encoder: Seq<char>) -> Seq<Seq<char>> {
    if encoder == "h264_nvenc"@ {
        seq!["-c:v"@, "h264_nvenc"@, "-preset"@, "p4"@, "-cq"@, "23"@]
    } else {
        seq!["-c:v"@, "libx264"@, "-preset"@, "fast"@, "-crf"@, "23"@]
    }
}

/// The `ffmpeg` command line of a recording: raw BGRA video and 16-bit stereo
/// audio at 48 kHz from standard input, AAC at 192 kbps, overwriting the file.
pub open spec fn recording_args(s: FileOutputView, width: u32, height: u32, fps: u32) -> Seq<
    Seq<char>,
> {
    seq![
        "-f"@,
        "rawvideo"@,
        "-pix_fmt"@,
        "bgra"@,
        "-s"@,
        decimal(width as nat) + "x"@ + decimal(height as nat),
        "-r"@,
        decimal(fps as nat),
        "-i"@,
        "-"@,
        "-f"@,
        "s16le"@,
        "-ar"@,
        "48000"@,
        "-ac"@,
        "2"@,
        "-i"@,
        "-"@,
    ] + video_encoder_args(s.video_encoder) + seq![
        "-c:a"@,
        "aac"@,
        "-b:a"@,
        "192k"@,
        "-y"@,
        output_path_spec(s),
    ]
}

/// The container formats offered.
pub open spec fn container_choices() -> Seq<(Seq<char>, Seq<char>)> {
    seq![("mp4"@, "MP4"@), ("mkv"@, "MKV"@), ("flv"@, "FLV"@), ("mov"@, "MOV"@)]
}

/// The settings a file output offers, with its current path and format as
/// defaults.
pub open spec fn file_properties(s: FileOutputView) -> Seq<PropertyDefView> {
    seq![
        PropertyDefView {
            name: "path"@,
            display_name: "File Path"@,
            description: Seq::empty(),
            type_: PropertyType::Path,
            default: ValueView::Path(s.path),
            min: None,
            max: None,
            step: None,
            enum_values: Seq::empty(),
            visible: true,
            enabled: true,
        },
        enum_def_view("format"@, "Container Format"@, s.format, container_choices()),
    ]
}

impl FileOutput {
    /// An inactive MP4 recording with libx264 and AAC.
    pub fn new(id: OutputId, name: String, path: String) -> (r: FileOutput)
        ensures
            r@ == (FileOutputView {
                id,
                name: name@,
                path: path@,
                format: "mp4"@,
                video_encoder: "libx264"@,
                audio_encoder: "aac"@,
                active: false,
                stats: FileOutputStats { bytes_written: 0, frames_written: 0, duration_ms: 0 },
            }),
    {
        FileOutput {
            id,
            name,
            path,
            format: owned("mp4"),
            video_encoder: owned("libx264"),
            audio_encoder: owned("aac"),
            active: false,
            stats: FileOutputStats::default(),
        }
    }

    pub fn set_path(&mut self, path: String)
        ensures
            final(self)@ == (FileOutputView { path: path@, ..old(self)@ }),
    {
        self.path = path;
    }

    pub fn set_format(&mut self, format: String)
        ensures
            final(self)@ == (FileOutputView { format: format@, ..old(self)@ }),
    {
        self.format = format;
    }

    pub fn set_video_encoder(&mut self, encoder: String)
        ensures
            final(self)@ == (FileOutputView { video_encoder: encoder@, ..old(self)@ }),
    {
        self.video_encoder = encoder;
    }

    pub fn set_audio_encoder(&mut self, encoder: String)
        ensures
            final(self)@ == (FileOutputView { audio_encoder: encoder@, ..old(self)@ }),
    {
        self.audio_encoder = encoder;
    }

    pub fn id(&self) -> (r: OutputId)
        ensures
            r == self@.id,
    {
        self.id
    }

    pub fn name(&self) -> (r: &str)
        ensures
            r@ == self@.name,
    {
        self.name.as_str()
    }

    pub fn protocol(&self) -> (r: &'static str)
        ensures
            r@ == "file"@,
    {
        "file"
    }

    pub fn is_connected(&self) -> (r: bool)
        ensures
            r == self@.active,
    {
        self.active
    }

    pub fn is_reconnecting(&self) -> (r: bool)
        ensures
            !r,
    {
        false
    }

    pub fn stats(&self) -> (r: FileOutputStats)
        ensures
            r == self@.stats,
    {
        self.stats
    }

    /// The file that is written.
    pub fn output_path(&self) -> (r: String)
        ensures
            r@ == output_path_spec(self@),
    {
        let mut p = self.path.clone();
        push_str(&mut p, ".");
        push_str(&mut p, self.format.as_str());
        p
    }

    /// The `ffmpeg` command line that records at the given size and rate.
    pub fn recording_command(&self, width: u32, height: u32, fps: u32) -> (r: Vec<String>)
        ensures
            string_views(r@) == recording_args(self@, width, height, fps),
    {
        let mut a: Vec<String> = Vec::new();
        push_arg(&mut a, "-f");
        push_arg(&mut a, "rawvideo");
        push_arg(&mut a, "-pix_fmt");
        push_arg(&mut a, "bgra");
        push_arg(&mut a, "-s");
        push_owned_arg(&mut a, decimal_pair(width as u64, "x", height as u64));
        push_arg(&mut a, "-r");
        push_owned_arg(&mut a, decimal_string(fps as u64));
        push_arg(&mut a, "-i");
        push_arg(&mut a, "-");
        push_arg(&mut a, "-f");
        push_arg(&mut a, "s16le");
        push_arg(&mut a, "-ar");
        push_arg(&mut a, "48000");
        push_arg(&mut a, "-ac");
        push_arg(&mut a, "2");
        push_arg(&mut a, "-i");
        push_arg(&mut a, "-");
        let ghost head = string_views(a@);
        if str_eq(self.video_encoder.as_str(), "h264_nvenc") {
            push_arg(&mut a, "-c:v");
            push_arg(&mut a, "h264_nvenc");
            push_arg(&mut a, "-preset");
            push_arg(&mut a, "p4");
            push_arg(&mut a, "-cq");
            push_arg(&mut a, "23");
        } else {
            push_arg(&mut a, "-c:v");
            push_arg(&mut a, "libx264");
            push_arg(&mut a, "-preset");
            push_arg(&mut a, "fast");
            push_arg(&mut a, "-crf");
            push_arg(&mut a, "23");
        }
        assert(string_views(a@) =~= head + video_encoder_args(self@.video_encoder));
        push_arg(&mut a, "-c:a");
        push_arg(&mut a, "aac");
        push_arg(&mut a, "-b:a");
        push_arg(&mut a, "192k");
        push_arg(&mut a, "-y");
        push_owned_arg(&mut a, self.output_path());
        assert(string_views(a@) =~= recording_args(self@, width, height, fps));
        a
    }

    /// Becomes active and returns the command line of a 1920x1080, 30 fps
    /// recording to start.
    pub fn connect(&mut self) -> (r: Vec<String>)
        ensures
            final(self)@ == (FileOutputView { active: true, ..old(self)@ }),
            string_views(r@) == recording_args(final(self)@, 1920, 1080, 30),
    {
        self.active = true;
        self.recording_command(1920, 1080, 30)
    }

    /// Becomes inactive.
    pub fn disconnect(&mut self)
        ensures
            final(self)@ == (FileOutputView { active: false, ..old(self)@ }),
    {
        self.active = false;
    }

    /// Counts a packet of `len` bytes written to the recording.
    pub fn record_written(&mut self, len: u64)
        requires
            old(self)@.stats.bytes_written + len <= u64::MAX,
            old(self)@.stats.frames_written < u64::MAX,
        ensures
            final(self)@ == (FileOutputView {
                stats: FileOutputStats {
                    bytes_written: (old(self)@.stats.bytes_written + len) as u64,
                    frames_written: (old(self)@.stats.frames_written + 1) as u64,
                    ..old(self)@.stats
                },
                ..old(self)@
            }),
    {
        self.stats.bytes_written = self.stats.bytes_written + len;
        self.stats.frames_written = self.stats.frames_written + 1;
    }

    /// File path and container format.
    pub fn properties_definition(&self) -> (r: Vec<PropertyDef>)
        ensures
            defs_view(r@) == file_properties(self@),
    {
        let choices = vec![
            string_pair("mp4", "MP4"),
            string_pair("mkv", "MKV"),
            string_pair("flv", "FLV"),
            string_pair("mov", "MOV"),
        ];
        assert(pairs_view(choices@) =~= container_choices());
        let path_def = PropertyDef {
            name: owned("path"),
            display_name: owned("File Path"),
            description: String::new(),
            type_: PropertyType::Path,
            default: PropertyValue::Path(self.path.clone()),
            min: None,
            max: None,
            step: None,
            enum_values: Vec::new(),
            visible: true,
            enabled: true,
        };
        assert(pairs_view(path_def.enum_values@) =~= Seq::empty());
        let r = vec![path_def, enum_def("format", "Container Format", self.format.as_str(), choices)];
        assert(defs_view(r@) =~= file_properties(self@));
        r
    }

    /// The path or format.
    pub fn get_property(&self, name: &str) -> (r: Option<PropertyValue>)
        ensures
            name@ == "path"@ ==> (r matches Some(v) && v@ == ValueView::Path(self@.path)),
            name@ != "path"@ && name@ == "format"@ ==> (r matches Some(v) && v@ == ValueView::Enum(
                self@.format,
            )),
            name@ != "path"@ && name@ != "format"@ ==> r is None,
    {
        if str_eq(name, "path") {
            Some(PropertyValue::Path(self.path.clone()))
        } else if str_eq(name, "format") {
            Some(PropertyValue::Enum(self.format.clone()))
        } else {
            None
        }
    }

    /// Sets the path from a path value or the format from an enumerated
    /// value; anything else is ignored.
    pub fn set_property(&mut self, name: &str, value: PropertyValue)
        ensures
            final(self)@ == (if name@ == "path"@ {
                match value@ {
                    ValueView::Path(p) => FileOutputView { path: p, ..old(self)@ },
                    _ => old(self)@,
                }
            } else if name@ == "format"@ {
                match value@ {
                    ValueView::Enum(f) => FileOutputView { format: f, ..old(self)@ },
                    _ => old(self)@,
                }
            } else {
                old(self)@
            }),
    {
        if str_eq(name, "path") {
            if let PropertyValue::Path(p) = value {
                self.path = p;
            }
        } else if str_eq(name, "format") {
            if let PropertyValue::Enum(f) = value {
                self.format = f;
            }
        }
    }
}

} // verus!
