use vstd::prelude::*;
use crate::types::{AudioInfo, EncoderPreset, PresetView, RateControlMode, VideoInfo};

verus! {

/// What an encoder was initialised with, for video.
#[derive(Clone, Debug)]
pub struct VideoEncodeInfo {
    pub video: VideoInfo,
    pub encoder_name: String,
    pub codec_params: serde_json::Value,
}

/// What an encoder was initialised with, for audio.
#[derive(Clone, Debug)]
pub struct AudioEncodeInfo {
    pub audio: AudioInfo,
    pub encoder_name: String,
    pub codec_params: serde_json::Value,
}

/// Input or output description of an encoder.
#[derive(Clone, Debug)]
pub enum MediaInfo {
    Video(VideoEncodeInfo),
    Audio(AudioEncodeInfo),
}

/// The name of a rate-control mode, as `{:?}` prints it.
pub open spec fn rate_control_name_spec(m: RateControlMode) -> Seq<char> {
    match m {
        RateControlMode::CBR => "CBR"@,
        RateControlMode::VBR => "VBR"@,
        RateControlMode::CQP => "CQP"@,
        RateControlMode::CRF => "CRF"@,
    }
}

/// The name of a rate-control mode.
pub fn rate_control_name(m: RateControlMode) -> (r: &'static str)
    ensures
        r@ == rate_control_name_spec(m),
{
    match m {
        RateControlMode::CBR => "CBR",
        RateControlMode::VBR => "VBR",
        RateControlMode::CQP => "CQP",
        RateControlMode::CRF => "CRF",
    }
}

/// The views of a list of presets.
pub open spec fn preset_views(s: Seq<EncoderPreset>) -> Seq<PresetView> {
    s.map_values(|p: EncoderPreset| p@)
}

/// The first preset of `s` with the given id.
pub open spec fn find_preset_by_id(s: Seq<PresetView>, id: u32) -> Option<PresetView>
    decreases s.len(),
{
    if s.len() == 0 {
        None
    } else if s[0].id == id {
        Some(s[0])
    } else {
        find_preset_by_id(s.drop_first(), id)
    }
}

/// The first preset of `s` with the given name.
pub open spec fn find_preset_by_name(s: Seq<PresetView>, name: Seq<char>) -> Option<PresetView>
    decreases s.len(),
{
    if s.len() == 0 {
        None
    } else if s[0].name == name {
        Some(s[0])
    } else {
        find_preset_by_name(s.drop_first(), name)
    }
}

proof fn lemma_find_by_id_skip(s: Seq<PresetView>, id: u32, i: int)
    requires
        0 <= i <= s.len(),
        forall|j: int| 0 <= j < i ==> s[j].id != id,
    ensures
        find_preset_by_id(s, id) == find_preset_by_id(s.subrange(i, s.len() as int), id),
    decreases i,
{
    if i > 0 {
        lemma_find_by_id_skip(s.drop_first(), id, i - 1);
        assert(s.drop_first().subrange(i - 1, s.drop_first().len() as int) =~= s.subrange(
            i,
            s.len() as int,
        ));
    } else {
        assert(s.subrange(0, s.len() as int) =~= s);
    }
}

proof fn lemma_find_by_name_skip(s: Seq<PresetView>, name: Seq<char>, i: int)
    requires
        0 <= i <= s.len(),
        forall|j: int| 0 <= j < i ==> s[j].name != name,
    ensures
        find_preset_by_name(s, name) == find_preset_by_name(s.subrange(i, s.len() as int), name),
    decreases i,
{
    if i > 0 {
        lemma_find_by_name_skip(s.drop_first(), name, i - 1);
        assert(s.drop_first().subrange(i - 1, s.drop_first().len() as int) =~= s.subrange(
            i,
            s.len() as int,
        ));
    } else {
        assert(s.subrange(0, s.len() as int) =~= s);
    }
}

/// Takes out of `presets` the first one with the given id.
pub fn take_preset_with_id(list: Vec<EncoderPreset>, id: u32) -> (r: Option<EncoderPreset>)
    ensures
        match r {
            Some(p) => find_preset_by_id(preset_views(list@), id) == Some(p@),
            None => find_preset_by_id(preset_views(list@), id) is None,
        },
{
    let ghost views = preset_views(list@);
    let mut presets = list;
    let n = presets.len();
    let mut i: usize = 0;
    while i < n
        invariant
            n == presets.len(),
            i <= n,
            views == preset_views(presets@),
            views == preset_views(list@),
            forall|j: int| 0 <= j < i ==> views[j].id != id,
        decreases n - i,
    {
        if presets[i].id == id {
            proof {
                lemma_find_by_id_skip(views, id, i as int);
                assert(views.subrange(i as int, n as int)[0] == views[i as int]);
            }
            let p = presets.remove(i);
            return Some(p);
        }
        i = i + 1;
    }
    proof {
        lemma_find_by_id_skip(views, id, n as int);
    }
    None
}

/// Takes out of `presets` the first one with the given name.
pub fn take_preset_with_name(list: Vec<EncoderPreset>, name: &String) -> (r: Option<
    EncoderPreset,
>)
    ensures
        match r {
            Some(p) => find_preset_by_name(preset_views(list@), name@) == Some(p@),
            None => find_preset_by_name(preset_views(list@), name@) is None,
        },
{
    let ghost views = preset_views(list@);
    let mut presets = list;
    let n = presets.len();
    let mut i: usize = 0;
    while i < n
        invariant
            n == presets.len(),
            i <= n,
            views == preset_views(presets@),
            views == preset_views(list@),
            forall|j: int| 0 <= j < i ==> views[j].name != name@,
        decreases n - i,
    {
        if presets[i].name == *name {
            proof {
                lemma_find_by_name_skip(views, name@, i as int);
                assert(views.subrange(i as int, n as int)[0] == views[i as int]);
            }
            let p = presets.remove(i);
            return Some(p);
        }
        i = i + 1;
    }
    proof {
        lemma_find_by_name_skip(views, name@, n as int);
    }
    None
}

/// A preset built from string slices.
pub fn preset(id: u32, name: &str, description: &str, quality_level: u8, speed_level: u8) -> (r:
    EncoderPreset)
    ensures
        r@ == (PresetView {
            id,
            name: name@,
            description: description@,
            quality_level,
            speed_level,
        }),
{
    EncoderPreset {
        id,
        name: name.to_owned(),
        description: description.to_owned(),
        quality_level,
        speed_level,
    }
}

/// View of a preset.
pub open spec fn pv(
    id: u32,
    name: Seq<char>,
    description: Seq<char>,
    quality_level: u8,
    speed_level: u8,
) -> PresetView {
    PresetView { id, name, description, quality_level, speed_level }
}

} // verus!
