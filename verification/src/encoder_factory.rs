use vstd::prelude::*;
use crate::aac::FfmpegAacEncoder;
use crate::ffmpeg_h264::FfmpegH264Encoder;
use crate::nvenc::NvencH264Encoder;
use crate::names::string_views;
use crate::text::{contains_seq, contains_str, decimal, owned, push_arg, push_decimal, push_str, str_eq};
use crate::types::EncoderId;

verus! {

/// The encoders that the studio can create.
#[derive(Clone, Copy, Debug, PartialEq, Eq, Structural)]
pub enum EncoderKind {
    FfmpegH264,
    NvencH264,
    FfmpegAac,
}

/// The type name under which each kind of encoder is registered and
/// selected.
pub open spec fn kind_type_name(k: EncoderKind) -> Seq<char> {
    match k {
        EncoderKind::FfmpegH264 => "ffmpeg_h264"@,
        EncoderKind::NvencH264 => "nvenc_h264"@,
        EncoderKind::FfmpegAac => "ffmpeg_aac"@,
    }
}

/// Whether an encoder of this kind can be made on this machine.
pub open spec fn kind_available(k: EncoderKind, nvenc_available: bool, aac_available: bool) -> bool {
    match k {
        EncoderKind::FfmpegH264 => true,
        EncoderKind::NvencH264 => nvenc_available,
        EncoderKind::FfmpegAac => aac_available,
    }
}

/// Creates software H.264 encoders.
pub struct FfmpegH264Factory;

impl FfmpegH264Factory {
    pub fn encoder_type(&self) -> (r: &'static str)
        ensures
            r@ == "ffmpeg_h264"@,
            r@ == kind_type_name(EncoderKind::FfmpegH264),
    {
        "ffmpeg_h264"
    }

    pub fn display_name(&self) -> (r: &'static str)
        ensures
            r@ == "FFmpeg x264 (Software)"@,
    {
        "FFmpeg x264 (Software)"
    }

    pub fn codec_name(&self) -> (r: &'static str)
        ensures
            r@ == "h264"@,
    {
        "h264"
    }

    /// A new encoder; creation cannot fail.
    pub fn create(&self, id: EncoderId) -> (r: FfmpegH264Encoder)
        ensures
            r@.id == id,
            r@.name == "FFmpeg x264"@,
            !r@.initialized,
    {
        FfmpegH264Encoder::new(id)
    }
}

/// Creates NVIDIA hardware H.264 encoders.
pub struct NvencH264Factory;

/// The message of a refused NVENC encoder.
pub open spec fn nvenc_unavailable_message() -> Seq<char> {
    "NVENC not available. Ensure NVIDIA drivers are installed and FFmpeg supports h264_nvenc."@
}

/// The message of a refused AAC encoder.
pub open spec fn aac_unavailable_message() -> Seq<char> {
    "AAC encoder not found. Ensure FFmpeg is installed with AAC support."@
}

impl NvencH264Factory {
    pub fn encoder_type(&self) -> (r: &'static str)
        ensures
            r@ == "nvenc_h264"@,
            r@ == kind_type_name(EncoderKind::NvencH264),
    {
        "nvenc_h264"
    }

    pub fn display_name(&self) -> (r: &'static str)
        ensures
            r@ == "NVIDIA NVENC H.264 (Hardware)"@,
    {
        "NVIDIA NVENC H.264 (Hardware)"
    }

    pub fn codec_name(&self) -> (r: &'static str)
        ensures
            r@ == "h264"@,
    {
        "h264"
    }

    /// A new encoder where NVENC is available, else the reason why not.
    pub fn create(&self, id: EncoderId, nvenc_available: bool) -> (r: Result<NvencH264Encoder, String>)
        ensures
            nvenc_available ==> (r matches Ok(e) && e@.id == id && !e@.initialized),
            !nvenc_available ==> (r matches Err(m) && m@ == nvenc_unavailable_message()),
    {
        if !nvenc_available {
            return Err(
                owned(
                    "NVENC not available. Ensure NVIDIA drivers are installed and FFmpeg supports h264_nvenc.",
                ),
            );
        }
        Ok(NvencH264Encoder::new(id))
    }
}

/// Creates AAC audio encoders.
pub struct FfmpegAacFactory;

impl FfmpegAacFactory {
    pub fn encoder_type(&self) -> (r: &'static str)
        ensures
            r@ == "ffmpeg_aac"@,
            r@ == kind_type_name(EncoderKind::FfmpegAac),
    {
        "ffmpeg_aac"
    }

    pub fn display_name(&self) -> (r: &'static str)
        ensures
            r@ == "FFmpeg AAC (Audio)"@,
    {
        "FFmpeg AAC (Audio)"
    }

    pub fn codec_name(&self) -> (r: &'static str)
        ensures
            r@ == "aac"@,
    {
        "aac"
    }

    /// A new encoder where FFmpeg has AAC, else the reason why not.
    pub fn create(&self, id: EncoderId, aac_available: bool) -> (r: Result<FfmpegAacEncoder, String>)
        ensures
            aac_available ==> (r matches Ok(e) && e@.id == id && !e@.initialized),
            !aac_available ==> (r matches Err(m) && m@ == aac_unavailable_message()),
    {
        if !aac_available {
            return Err(owned("AAC encoder not found. Ensure FFmpeg is installed with AAC support."));
        }
        Ok(FfmpegAacEncoder::new(id))
    }
}

/// The video encoders to offer: NVENC first where available, then software.
pub fn get_available_video_encoders(nvenc_available: bool) -> (r: Vec<EncoderKind>)
    ensures
        r@ == if nvenc_available {
            seq![EncoderKind::NvencH264, EncoderKind::FfmpegH264]
        } else {
            seq![EncoderKind::FfmpegH264]
        },
{
    let mut encoders: Vec<EncoderKind> = Vec::new();
    if nvenc_available {
        encoders.push(EncoderKind::NvencH264);
    }
    encoders.push(EncoderKind::FfmpegH264);
    assert(encoders@ =~= if nvenc_available {
        seq![EncoderKind::NvencH264, EncoderKind::FfmpegH264]
    } else {
        seq![EncoderKind::FfmpegH264]
    });
    encoders
}

/// The audio encoders to offer: AAC where available.
pub fn get_available_audio_encoders(aac_available: bool) -> (r: Vec<EncoderKind>)
    ensures
        r@ == if aac_available {
            seq![EncoderKind::FfmpegAac]
        } else {
            Seq::empty()
        },
{
    let mut encoders: Vec<EncoderKind> = Vec::new();
    if aac_available {
        encoders.push(EncoderKind::FfmpegAac);
    }
    assert(encoders@ =~= if aac_available {
        seq![EncoderKind::FfmpegAac]
    } else {
        Seq::empty()
    });
    encoders
}

/// The encoder that a type name selects, given which encoders are available.
pub open spec fn encoder_by_name_spec(name: Seq<char>, nvenc_available: bool, aac_available: bool) -> Option<EncoderKind> {
    if name == "ffmpeg_h264"@ {
        Some(EncoderKind::FfmpegH264)
    } else if name == "nvenc_h264"@ {
        if nvenc_available {
            Some(EncoderKind::NvencH264)
        } else {
            None
        }
    } else if name == "ffmpeg_aac"@ {
        if aac_available {
            Some(EncoderKind::FfmpegAac)
        } else {
            None
        }
    } else {
        None
    }
}

/// The encoder of a type name (`ffmpeg_h264`, `nvenc_h264`, `ffmpeg_aac`),
/// where it is available.
pub fn get_encoder_by_name(name: &str, nvenc_available: bool, aac_available: bool) -> (r: Option<
    EncoderKind,
>)
    ensures
        r == encoder_by_name_spec(name@, nvenc_available, aac_available),
{
    if str_eq(name, "ffmpeg_h264") {
        Some(EncoderKind::FfmpegH264)
    } else if str_eq(name, "nvenc_h264") {
        if nvenc_available {
            Some(EncoderKind::NvencH264)
        } else {
            None
        }
    } else if str_eq(name, "ffmpeg_aac") {
        if aac_available {
            Some(EncoderKind::FfmpegAac)
        } else {
            None
        }
    } else {
        None
    }
}

/// Selecting by type name gives the encoder of that name: whatever the
/// name and the machine, a selected kind is registered under exactly the
/// requested name and can be made here; and every kind that can be made here
/// is selected by its own name (so no two names select one kind).
pub proof fn lemma_encoder_by_name_selects_named_kind(name: Seq<char>, nvenc_available: bool, aac_available: bool)
    ensures
        encoder_by_name_spec(name, nvenc_available, aac_available) matches Some(k) ==> kind_type_name(k) == name
            && kind_available(k, nvenc_available, aac_available),
        forall|k: EncoderKind|
            kind_available(k, nvenc_available, aac_available) ==> encoder_by_name_spec(
                #[trigger] kind_type_name(k),
                nvenc_available,
                aac_available,
            ) == Some(k),
{
    reveal_strlit("ffmpeg_h264");
    reveal_strlit("nvenc_h264");
    reveal_strlit("ffmpeg_aac");
    assert("ffmpeg_h264"@ != "nvenc_h264"@) by {
        assert("ffmpeg_h264"@.len() != "nvenc_h264"@.len());
    }
    assert("ffmpeg_h264"@ != "ffmpeg_aac"@) by {
        assert("ffmpeg_h264"@.len() != "ffmpeg_aac"@.len());
    }
    assert("nvenc_h264"@ != "ffmpeg_aac"@) by {
        assert("nvenc_h264"@[0] != "ffmpeg_aac"@[0]);
    }
}

/// Which encoders this machine offers.
#[derive(Clone, Copy, Debug, PartialEq, Eq, Structural)]
pub struct EncoderDetection {
    pub nvenc_available: bool,
    pub aac_available: bool,
    pub gpu_count: u32,
    pub ffmpeg_available: bool,
}

/// Gathers the results of probing for FFmpeg, NVENC and AAC; the GPU count
/// follows from NVENC's availability.
pub fn detect_encoders(ffmpeg_available: bool, nvenc_available: bool, aac_available: bool) -> (r:
    EncoderDetection)
    ensures
        r == (EncoderDetection {
            nvenc_available,
            aac_available,
            gpu_count: if nvenc_available {
                1u32
            } else {
                0u32
            },
            ffmpeg_available,
        }),
{
    let gpu_count = NvencH264Encoder::get_gpu_count(nvenc_available);
    EncoderDetection { nvenc_available, aac_available, gpu_count, ffmpeg_available }
}

/// What `ffmpeg` told of this machine: `ffmpeg_ok` whether `ffmpeg
/// -version` ran successfully, `codecs_out` and `codecs_err` what `ffmpeg
/// -codecs` printed on its standard output and error (empty when it did not
/// run). NVENC is available when the listing's output names `h264_nvenc`,
/// AAC when its output and error together name `AAC`.
pub fn detection_from_probe(ffmpeg_ok: bool, codecs_out: &str, codecs_err: &str) -> (r: EncoderDetection)
    ensures
        r == (EncoderDetection {
            nvenc_available: contains_seq(codecs_out@, "h264_nvenc"@),
            aac_available: contains_seq(codecs_out@ + codecs_err@, "AAC"@),
            gpu_count: if contains_seq(codecs_out@, "h264_nvenc"@) {
                1u32
            } else {
                0u32
            },
            ffmpeg_available: ffmpeg_ok,
        }),
{
    let nvenc = contains_str(codecs_out, "h264_nvenc");
    let mut combined = owned(codecs_out);
    push_str(&mut combined, codecs_err);
    let aac = contains_str(combined.as_str(), "AAC");
    detect_encoders(ffmpeg_ok, nvenc, aac)
}

/// One line naming what is available, as `summary` writes it.
pub open spec fn detection_summary(d: EncoderDetection) -> Seq<char> {
    (if d.ffmpeg_available {
        "FFmpeg: available"@
    } else {
        "FFmpeg: NOT available"@
    }) + ", "@ + (if d.nvenc_available {
        "NVENC: available ("@ + decimal(d.gpu_count as nat) + " GPU)"@
    } else {
        "NVENC: not available"@
    }) + ", "@ + (if d.aac_available {
        "AAC: available"@
    } else {
        "AAC: not available"@
    })
}

impl EncoderDetection {
    /// A one-line description of what is available.
    pub fn summary(&self) -> (r: String)
        ensures
            r@ == detection_summary(*self),
    {
        let mut s = String::new();
        if self.ffmpeg_available {
            push_str(&mut s, "FFmpeg: available");
        } else {
            push_str(&mut s, "FFmpeg: NOT available");
        }
        push_str(&mut s, ", ");
        if self.nvenc_available {
            push_str(&mut s, "NVENC: available (");
            push_decimal(&mut s, self.gpu_count as u64);
            push_str(&mut s, " GPU)");
        } else {
            push_str(&mut s, "NVENC: not available");
        }
        push_str(&mut s, ", ");
        if self.aac_available {
            push_str(&mut s, "AAC: available");
        } else {
            push_str(&mut s, "AAC: not available");
        }
        assert(s@ =~= detection_summary(*self));
        s
    }
}


/// The video encoders the settings offer: x264 where FFmpeg runs, NVENC where
/// it is available, else a placeholder.
pub open spec fn video_encoder_labels_spec(d: EncoderDetection) -> Seq<Seq<char>> {
    let l = (if d.ffmpeg_available {
        seq!["FFmpeg x264 (Software)"@]
    } else {
        Seq::<Seq<char>>::empty()
    }) + (if d.nvenc_available {
        seq!["NVIDIA NVENC H.264 (Hardware)"@]
    } else {
        Seq::<Seq<char>>::empty()
    });
    if l.len() == 0 {
        seq!["None Available"@]
    } else {
        l
    }
}

/// The audio encoders the settings offer: AAC where available, else a
/// placeholder.
pub open spec fn audio_encoder_labels_spec(d: EncoderDetection) -> Seq<Seq<char>> {
    if d.aac_available {
        seq!["FFmpeg AAC"@]
    } else {
        seq!["None Available"@]
    }
}

/// The video encoder chosen at start: NVENC, else x264, else none.
pub open spec fn default_video_encoder_spec(d: EncoderDetection) -> Seq<char> {
    if d.nvenc_available {
        "NVIDIA NVENC H.264 (Hardware)"@
    } else if d.ffmpeg_available {
        "FFmpeg x264 (Software)"@
    } else {
        "None Available"@
    }
}

impl EncoderDetection {
    /// The names of the video encoders to offer (see `video_encoder_labels_spec`).
    pub fn video_encoder_labels(&self) -> (r: Vec<String>)
        ensures
            string_views(r@) == video_encoder_labels_spec(*self),
    {
        let mut v: Vec<String> = Vec::new();
        if self.ffmpeg_available {
            push_arg(&mut v, "FFmpeg x264 (Software)");
        }
        if self.nvenc_available {
            push_arg(&mut v, "NVIDIA NVENC H.264 (Hardware)");
        }
        if v.len() == 0 {
            push_arg(&mut v, "None Available");
        }
        assert(string_views(v@) =~= video_encoder_labels_spec(*self));
        v
    }

    /// The names of the audio encoders to offer (see `audio_encoder_labels_spec`).
    pub fn audio_encoder_labels(&self) -> (r: Vec<String>)
        ensures
            string_views(r@) == audio_encoder_labels_spec(*self),
    {
        let mut v: Vec<String> = Vec::new();
        if self.aac_available {
            push_arg(&mut v, "FFmpeg AAC");
        } else {
            push_arg(&mut v, "None Available");
        }
        assert(string_views(v@) =~= audio_encoder_labels_spec(*self));
        v
    }

    /// The video encoder chosen at start (see `default_video_encoder_spec`).
    pub fn default_video_encoder(&self) -> (r: &'static str)
        ensures
            r@ == default_video_encoder_spec(*self),
    {
        if self.nvenc_available {
            "NVIDIA NVENC H.264 (Hardware)"
        } else if self.ffmpeg_available {
            "FFmpeg x264 (Software)"
        } else {
            "None Available"
        }
    }

    /// The audio encoder chosen at start: AAC where available, else none.
    pub fn default_audio_encoder(&self) -> (r: &'static str)
        ensures
            r@ == (if self.aac_available {
                "FFmpeg AAC"@
            } else {
                "None Available"@
            }),
    {
        if self.aac_available {
            "FFmpeg AAC"
        } else {
            "None Available"
        }
    }
}

} // verus!
