use vstd::prelude::*;
use crate::frame::AudioFrame;
use crate::property::{PropertyDef, PropertyValue};
use crate::types::{AudioInfo, SourceId, VideoInfo, spec_bytes_per_sample, spec_speakers_2point1};

verus! {

/// An audio source that produces silence while active.
pub struct SilenceSource {
    id: SourceId,
    name: String,
    audio_info: AudioInfo,
    active: bool,
    samples_generated: u64,
}

/// Mathematical state of a silence source; the audio description is its
/// rate, sample format and speakers.
pub struct SilenceView {
    pub id: SourceId,
    pub name: Seq<char>,
    pub sample_rate: u32,
    pub format: crate::types::AudioFormat,
    pub speakers: Seq<crate::types::AudioSpeaker>,
    pub active: bool,
    pub samples_generated: u64,
}

impl View for SilenceSource {
    type V = SilenceView;

    closed spec fn view(&self) -> SilenceView {
        SilenceView {
            id: self.id,
            name: self.name@,
            sample_rate: self.audio_info.sample_rate,
            format: self.audio_info.format,
            speakers: self.audio_info.speakers@,
            active: self.active,
            samples_generated: self.samples_generated,
        }
    }
}

impl SilenceSource {
    /// An inactive source in the default audio layout (48 kHz float, 2.1).
    pub fn new(id: SourceId, name: String) -> (r: SilenceSource)
        ensures
            r@ == (SilenceView {
                id,
                name: name@,
                sample_rate: 48000,
                format: crate::types::AudioFormat::F32,
                speakers: spec_speakers_2point1(),
                active: false,
                samples_generated: 0,
            }),
    {
        SilenceSource { id, name, audio_info: AudioInfo::default(), active: false, samples_generated: 0 }
    }

    pub fn id(&self) -> (r: SourceId)
        ensures
            r == self@.id,
    {
        self.id
    }

    pub fn name(&self) -> (r: &str)
        ensures
            r@ == self@.name,
    {
        self.name.as_str()
    }

    pub fn set_name(&mut self, name: String)
        ensures
            final(self)@ == (SilenceView { name: name@, ..old(self)@ }),
    {
        self.name = name;
    }

    /// A silence source has no video.
    pub fn get_video_info(&self) -> (r: Option<VideoInfo>)
        ensures
            r is None,
    {
        None
    }

    pub fn get_audio_info(&self) -> (r: Option<AudioInfo>)
        ensures
            r matches Some(a) && a.sample_rate == self@.sample_rate && a.format == self@.format
                && a.speakers@ == self@.speakers,
    {
        Some(self.audio_info.clone())
    }

    /// How many samples were produced.
    pub fn samples_generated(&self) -> (r: u64)
        ensures
            r == self@.samples_generated,
    {
        self.samples_generated
    }

    pub fn activate(&mut self)
        ensures
            final(self)@ == (SilenceView { active: true, ..old(self)@ }),
    {
        self.active = true;
    }

    pub fn deactivate(&mut self)
        ensures
            final(self)@ == (SilenceView { active: false, ..old(self)@ }),
    {
        self.active = false;
    }

    pub fn is_active(&self) -> (r: bool)
        ensures
            r == self@.active,
    {
        self.active
    }

    /// A silence source has no settings.
    pub fn properties_definition(&self) -> (r: Vec<PropertyDef>)
        ensures
            r@.len() == 0,
    {
        Vec::new()
    }

    pub fn get_property(&self, name: &str) -> (r: Option<PropertyValue>)
        ensures
            r is None,
    {
        None
    }

    /// Settings are ignored.
    pub fn set_property(&mut self, name: &str, value: PropertyValue)
        ensures
            final(self)@ == old(self)@,
    {
    }

    /// A silent block of `frames` frames while active (and the count of
    /// samples produced grows by `frames`); nothing while inactive.
    pub fn get_audio(&mut self, frames: u32) -> (r: Option<AudioFrame>)
        requires
            old(self)@.active ==> old(self)@.samples_generated + frames <= u64::MAX,
            old(self)@.active ==> frames * old(self)@.speakers.len() * spec_bytes_per_sample(
                old(self)@.format,
            ) <= usize::MAX,
        ensures
            !old(self)@.active ==> r is None && final(self)@ == old(self)@,
            old(self)@.active ==> final(self)@ == (SilenceView {
                samples_generated: (old(self)@.samples_generated + frames) as u64,
                ..old(self)@
            }),
            old(self)@.active ==> (r matches Some(f) && f.frames == frames
                && f.sample_rate == old(self)@.sample_rate && f.format == old(self)@.format
                && f.speakers@ == old(self)@.speakers && f.pts == 0
                && f.data@.len() == frames * old(self)@.speakers.len() * spec_bytes_per_sample(
                old(self)@.format,
            ) && (forall|i: int| 0 <= i < f.data@.len() ==> f.data@[i] == 0)),
    {
        if self.active {
            self.samples_generated = self.samples_generated + frames as u64;
            Some(AudioFrame::new(frames, &self.audio_info))
        } else {
            None
        }
    }
}

} // verus!
