use vstd::prelude::*;
use crate::frame::AudioFrame;
use crate::types::{AudioFormat, AudioInfo, AudioSpeaker, spec_speakers_2point1};

verus! {

/// The largest frame count among `s`, or 1024 when `s` is empty.
pub open spec fn max_frames(s: Seq<AudioFrame>) -> u32
    decreases s.len(),
{
    if s.len() == 0 {
        1024
    } else if s.len() == 1 {
        s[0].frames
    } else {
        let rest = max_frames(s.drop_last());
        if s.last().frames > rest {
            s.last().frames
        } else {
            rest
        }
    }
}

/// The mixed block is as long as the longest input: for any non-empty list
/// of inputs, every input's frame count is at most `max_frames`, and some
/// input has exactly that many frames (so the order of the inputs does not
/// matter).
pub proof fn lemma_max_frames_is_longest(s: Seq<AudioFrame>)
    requires
        s.len() > 0,
    ensures
        forall|i: int| 0 <= i < s.len() ==> (#[trigger] s[i]).frames <= max_frames(s),
        exists|i: int| 0 <= i < s.len() && (#[trigger] s[i]).frames == max_frames(s),
    decreases s.len(),
{
    if s.len() == 1 {
        assert(s[0].frames == max_frames(s));
    } else {
        let init = s.drop_last();
        lemma_max_frames_is_longest(init);
        assert forall|i: int| 0 <= i < s.len() implies (#[trigger] s[i]).frames <= max_frames(s) by {
            if i < s.len() - 1 {
                assert(s[i] == init[i]);
            }
        }
        if s.last().frames > max_frames(init) {
            assert(s[s.len() - 1].frames == max_frames(s));
        } else {
            let k = choose|i: int| 0 <= i < init.len() && (#[trigger] init[i]).frames == max_frames(init);
            assert(s[k] == init[k]);
            assert(s[k].frames == max_frames(s));
        }
    }
}

/// Mixes the audio of a track into one block of its layout.
pub struct AudioMixer {
    sample_rate: u32,
    channels: usize,
}

impl AudioMixer {
    pub closed spec fn sample_rate(&self) -> u32 {
        self.sample_rate
    }

    pub closed spec fn channels(&self) -> usize {
        self.channels
    }

    /// A stereo mixer at 48 kHz.
    pub fn new() -> (r: AudioMixer)
        ensures
            r.sample_rate() == 48000,
            r.channels() == 2,
    {
        AudioMixer { sample_rate: 48000, channels: 2 }
    }

    /// A silent block as long as the longest input, in stereo float at the
    /// mixer's rate; with no input, 1024 silent frames in the default layout.
    pub fn mix(&self, inputs: &[AudioFrame]) -> (r: AudioFrame)
        requires
            forall|i: int| 0 <= i < inputs@.len() ==> inputs@[i].frames * 8 <= usize::MAX,
        ensures
            inputs@.len() == 0 ==> r.frames == 1024 && r.sample_rate == 48000 && r.format
                == AudioFormat::F32 && r.speakers@ == spec_speakers_2point1()
                && r.data@.len() == 1024 * 3 * 4,
            inputs@.len() > 0 ==> r.frames == max_frames(inputs@) && r.sample_rate == self.sample_rate()
                && r.format == AudioFormat::F32 && r.speakers@ == seq![AudioSpeaker::FL, AudioSpeaker::FR]
                && r.data@.len() == max_frames(inputs@) * 2 * 4,
            forall|i: int| 0 <= i < r.data@.len() ==> r.data@[i] == 0,
            forall|i: int| 0 <= i < inputs@.len() ==> (#[trigger] inputs@[i]).frames <= r.frames,
            inputs@.len() > 0 ==> exists|i: int| 0 <= i < inputs@.len() && (#[trigger] inputs@[i]).frames == r.frames,
    {
        if inputs.len() == 0 {
            let d = AudioInfo::default();
            assert(d.speakers@.len() == 3);
            return AudioFrame::new(1024, &d);
        }
        let mut most: u32 = inputs[0].frames;
        let mut i: usize = 1;
        assert(inputs@.subrange(0, 1) =~= seq![inputs@[0]]);
        while i < inputs.len()
            invariant
                1 <= i <= inputs@.len(),
                most == max_frames(inputs@.subrange(0, i as int)),
                exists|k: int| 0 <= k < i && inputs@[k].frames == most,
            decreases inputs@.len() - i,
        {
            proof {
                assert(inputs@.subrange(0, i + 1).drop_last() =~= inputs@.subrange(0, i as int));
            }
            if inputs[i].frames > most {
                most = inputs[i].frames;
            }
            i = i + 1;
        }
        assert(inputs@.subrange(0, inputs@.len() as int) =~= inputs@);
        proof {
            lemma_max_frames_is_longest(inputs@);
        }
        let layout = AudioInfo {
            sample_rate: self.sample_rate,
            format: AudioFormat::F32,
            speakers: vec![AudioSpeaker::FL, AudioSpeaker::FR],
        };
        assert(layout.speakers@ =~= seq![AudioSpeaker::FL, AudioSpeaker::FR]);
        AudioFrame::new(most, &layout)
    }
}

} // verus!
