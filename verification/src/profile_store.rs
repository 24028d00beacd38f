use vstd::prelude::*;
use crate::chat::{clone_strings, opt_view, clone_opt_string};
use crate::destinations::{DestinationConfig, DestinationView, destination_views};
use crate::idmap::IdMap;
use crate::names::string_views;
use crate::profiles::{
    AudioProfileConfig, AudioTrackConfig, OutputMode, OutputProfileConfig, RecordingConfig,
    RecordingQuality, ReplayBufferConfig, StreamingConfig, StreamingOutputConfig,
    VideoProfileConfig,
};
use crate::text::owned;
use crate::types::{AudioFormat, ProfileId};

verus! {

/// `uuid::Uuid::new_v4` as its 128-bit value: a random profile identity.
/// Nothing is stated of the value.
#[verifier::external_body]
pub(crate) fn new_profile_id() -> (r: ProfileId) {
    ProfileId(uuid::Uuid::new_v4().as_u128())
}

/// Named JSON properties, in the order they are stored.
pub open spec fn props_view(s: Seq<(String, serde_json::Value)>) -> Seq<(Seq<char>, serde_json::Value)> {
    s.map_values(|p: (String, serde_json::Value)| (p.0@, p.1))
}

/// A copy of named JSON properties.
pub fn clone_props(v: &Vec<(String, serde_json::Value)>) -> (r: Vec<(String, serde_json::Value)>)
    ensures
        props_view(r@) == props_view(v@),
{
    let mut r: Vec<(String, serde_json::Value)> = Vec::new();
    let mut i: usize = 0;
    while i < v.len()
        invariant
            i <= v.len(),
            r@.len() == i,
            forall|k: int| 0 <= k < i ==> #[trigger] r@[k].0@ == v@[k].0@ && r@[k].1 == v@[k].1,
        decreases v.len() - i,
    {
        let p = (v[i].0.clone(), v[i].1.clone());
        r.push(p);
        i = i + 1;
    }
    assert(props_view(r@) =~= props_view(v@));
    r
}

/// A source saved in a profile.
#[derive(Debug)]
pub struct SourceProfileConfig {
    pub name: String,
    pub source_type: String,
    pub properties: Vec<(String, serde_json::Value)>,
    pub active: bool,
}

/// An encoder saved in a profile.
#[derive(Debug)]
pub struct EncoderProfileConfig {
    pub name: String,
    pub encoder_type: String,
    pub properties: Vec<(String, serde_json::Value)>,
}

/// Mathematical value of a saved source.
pub struct SourceProfileView {
    pub name: Seq<char>,
    pub source_type: Seq<char>,
    pub properties: Seq<(Seq<char>, serde_json::Value)>,
    pub active: bool,
}

/// Mathematical value of a saved encoder.
pub struct EncoderProfileView {
    pub name: Seq<char>,
    pub encoder_type: Seq<char>,
    pub properties: Seq<(Seq<char>, serde_json::Value)>,
}

pub open spec fn source_view(s: SourceProfileConfig) -> SourceProfileView {
    SourceProfileView {
        name: s.name@,
        source_type: s.source_type@,
        properties: props_view(s.properties@),
        active: s.active,
    }
}

pub open spec fn encoder_view(e: EncoderProfileConfig) -> EncoderProfileView {
    EncoderProfileView {
        name: e.name@,
        encoder_type: e.encoder_type@,
        properties: props_view(e.properties@),
    }
}

/// The values of an audio track: identity, name, sources and whether it is mixed.
pub open spec fn track_view(t: AudioTrackConfig) -> (u32, Seq<char>, Seq<Seq<char>>, bool) {
    (t.id, t.name@, string_views(t.sources@), t.mixer)
}

/// Mathematical value of the settings of a profile (everything but its
/// identity and name).
pub struct SettingsView {
    pub video: VideoProfileConfig,
    pub audio: (u32, u32, AudioFormat, Seq<(u32, Seq<char>, Seq<Seq<char>>, bool)>),
    pub destinations: Seq<DestinationView>,
    pub primary: Option<Seq<char>>,
    pub mode: OutputMode,
    pub recording: (Seq<char>, Seq<char>, RecordingQuality, Seq<char>, u32),
    pub streaming: (Seq<char>, u32, bool, bool, u32, Seq<char>),
    pub replay_buffer: ReplayBufferConfig,
    pub sources: Seq<SourceProfileView>,
    pub encoders: Seq<(Seq<char>, EncoderProfileView)>,
}

/// A profile: a named set of video, audio, streaming and output settings.
#[derive(Debug)]
pub struct Profile {
    pub id: ProfileId,
    pub name: String,
    pub video_config: VideoProfileConfig,
    pub audio_config: AudioProfileConfig,
    pub stream_config: StreamingConfig,
    pub output_config: OutputProfileConfig,
    pub sources: Vec<SourceProfileConfig>,
    pub encoders: Vec<(String, EncoderProfileConfig)>,
}

/// Mathematical value of a profile.
pub struct ProfileView {
    pub id: ProfileId,
    pub name: Seq<char>,
    pub settings: SettingsView,
}

pub open spec fn settings_view(p: Profile) -> SettingsView {
    SettingsView {
        video: p.video_config,
        audio: (
            p.audio_config.sample_rate,
            p.audio_config.channels,
            p.audio_config.format,
            p.audio_config.tracks@.map_values(|t: AudioTrackConfig| track_view(t)),
        ),
        destinations: destination_views(p.stream_config.destinations@),
        primary: opt_view(p.stream_config.primary),
        mode: p.output_config.mode,
        recording: (
            p.output_config.recording.format@,
            p.output_config.recording.path@,
            p.output_config.recording.quality,
            p.output_config.recording.encoder@,
            p.output_config.recording.bitrate,
        ),
        streaming: (
            p.output_config.streaming.encoder@,
            p.output_config.streaming.bitrate,
            p.output_config.streaming.use_cbr,
            p.output_config.streaming.enforce_bitrate,
            p.output_config.streaming.keyint,
            p.output_config.streaming.preset@,
        ),
        replay_buffer: p.output_config.replay_buffer,
        sources: p.sources@.map_values(|s: SourceProfileConfig| source_view(s)),
        encoders: p.encoders@.map_values(
            |e: (String, EncoderProfileConfig)| (e.0@, encoder_view(e.1)),
        ),
    }
}

/// The settings of a new profile.
pub open spec fn default_settings() -> SettingsView {
    SettingsView {
        video: VideoProfileConfig {
            width: 1280,
            height: 720,
            fps_num: 30,
            fps_den: 1,
            output_width: 1280,
            output_height: 720,
            scale_type: crate::profiles::ScaleType::Bilinear,
            format: crate::types::PixelFormat::NV12,
        },
        audio: (48000, 2, AudioFormat::F32, seq![(0u32, "Track 1"@, Seq::<Seq<char>>::empty(), true)]),
        destinations: Seq::empty(),
        primary: None,
        mode: OutputMode::Simple,
        recording: ("mp4"@, Seq::empty(), RecordingQuality::High, "x264"@, 10000),
        streaming: ("x264"@, 6000, true, true, 2, "faster"@),
        replay_buffer: ReplayBufferConfig { enabled: false, duration_secs: 20, max_mb: 500 },
        sources: Seq::empty(),
        encoders: Seq::empty(),
    }
}

impl View for Profile {
    type V = ProfileView;

    open spec fn view(&self) -> ProfileView {
        ProfileView { id: self.id, name: self.name@, settings: settings_view(*self) }
    }
}

fn clone_tracks(v: &Vec<AudioTrackConfig>) -> (r: Vec<AudioTrackConfig>)
    ensures
        r@.map_values(|t: AudioTrackConfig| track_view(t)) == v@.map_values(
            |t: AudioTrackConfig| track_view(t),
        ),
{
    let mut r: Vec<AudioTrackConfig> = Vec::new();
    let mut i: usize = 0;
    while i < v.len()
        invariant
            i <= v.len(),
            r@.len() == i,
            forall|k: int| 0 <= k < i ==> #[trigger] track_view(r@[k]) == track_view(v@[k]),
        decreases v.len() - i,
    {
        r.push(v[i].clone());
        i = i + 1;
    }
    assert(r@.map_values(|t: AudioTrackConfig| track_view(t)) =~= v@.map_values(
        |t: AudioTrackConfig| track_view(t),
    ));
    r
}

fn clone_destinations(v: &Vec<DestinationConfig>) -> (r: Vec<DestinationConfig>)
    ensures
        destination_views(r@) == destination_views(v@),
{
    let mut r: Vec<DestinationConfig> = Vec::new();
    let mut i: usize = 0;
    while i < v.len()
        invariant
            i <= v.len(),
            r@.len() == i,
            forall|k: int| 0 <= k < i ==> #[trigger] r@[k]@ == v@[k]@,
        decreases v.len() - i,
    {
        r.push(v[i].clone());
        i = i + 1;
    }
    assert(destination_views(r@) =~= destination_views(v@));
    r
}

impl Clone for SourceProfileConfig {
    fn clone(&self) -> (r: Self)
        ensures
            source_view(r) == source_view(*self),
    {
        SourceProfileConfig {
            name: self.name.clone(),
            source_type: self.source_type.clone(),
            properties: clone_props(&self.properties),
            active: self.active,
        }
    }
}

impl Clone for EncoderProfileConfig {
    fn clone(&self) -> (r: Self)
        ensures
            encoder_view(r) == encoder_view(*self),
    {
        EncoderProfileConfig {
            name: self.name.clone(),
            encoder_type: self.encoder_type.clone(),
            properties: clone_props(&self.properties),
        }
    }
}

fn clone_sources(v: &Vec<SourceProfileConfig>) -> (r: Vec<SourceProfileConfig>)
    ensures
        r@.map_values(|s: SourceProfileConfig| source_view(s)) == v@.map_values(
            |s: SourceProfileConfig| source_view(s),
        ),
{
    let mut r: Vec<SourceProfileConfig> = Vec::new();
    let mut i: usize = 0;
    while i < v.len()
        invariant
            i <= v.len(),
            r@.len() == i,
            forall|k: int| 0 <= k < i ==> #[trigger] source_view(r@[k]) == source_view(v@[k]),
        decreases v.len() - i,
    {
        r.push(v[i].clone());
        i = i + 1;
    }
    assert(r@.map_values(|s: SourceProfileConfig| source_view(s)) =~= v@.map_values(
        |s: SourceProfileConfig| source_view(s),
    ));
    r
}

fn clone_encoders(v: &Vec<(String, EncoderProfileConfig)>) -> (r: Vec<(String, EncoderProfileConfig)>)
    ensures
        r@.map_values(|e: (String, EncoderProfileConfig)| (e.0@, encoder_view(e.1))) == v@.map_values(
            |e: (String, EncoderProfileConfig)| (e.0@, encoder_view(e.1)),
        ),
{
    let mut r: Vec<(String, EncoderProfileConfig)> = Vec::new();
    let mut i: usize = 0;
    while i < v.len()
        invariant
            i <= v.len(),
            r@.len() == i,
            forall|k: int| 0 <= k < i ==> #[trigger] r@[k].0@ == v@[k].0@ && encoder_view(r@[k].1)
                == encoder_view(v@[k].1),
        decreases v.len() - i,
    {
        r.push((v[i].0.clone(), v[i].1.clone()));
        i = i + 1;
    }
    assert(r@.map_values(|e: (String, EncoderProfileConfig)| (e.0@, encoder_view(e.1))) =~= v@.map_values(
        |e: (String, EncoderProfileConfig)| (e.0@, encoder_view(e.1)),
    ));
    r
}

impl Clone for Profile {
    fn clone(&self) -> (r: Self)
        ensures
            r@ == self@,
    {
        Profile {
            id: self.id,
            name: self.name.clone(),
            video_config: self.video_config,
            audio_config: AudioProfileConfig {
                sample_rate: self.audio_config.sample_rate,
                channels: self.audio_config.channels,
                format: self.audio_config.format,
                tracks: clone_tracks(&self.audio_config.tracks),
            },
            stream_config: StreamingConfig {
                destinations: clone_destinations(&self.stream_config.destinations),
                primary: clone_opt_string(&self.stream_config.primary),
            },
            output_config: OutputProfileConfig {
                mode: self.output_config.mode,
                recording: RecordingConfig {
                    format: self.output_config.recording.format.clone(),
                    path: self.output_config.recording.path.clone(),
                    quality: self.output_config.recording.quality,
                    encoder: self.output_config.recording.encoder.clone(),
                    bitrate: self.output_config.recording.bitrate,
                },
                streaming: StreamingOutputConfig {
                    encoder: self.output_config.streaming.encoder.clone(),
                    bitrate: self.output_config.streaming.bitrate,
                    use_cbr: self.output_config.streaming.use_cbr,
                    enforce_bitrate: self.output_config.streaming.enforce_bitrate,
                    keyint: self.output_config.streaming.keyint,
                    preset: self.output_config.streaming.preset.clone(),
                },
                replay_buffer: self.output_config.replay_buffer,
            },
            sources: clone_sources(&self.sources),
            encoders: clone_encoders(&self.encoders),
        }
    }
}

impl Profile {
    /// A profile with the given identity and name and default settings.
    pub fn new(id: ProfileId, name: String) -> (r: Profile)
        ensures
            r@ == (ProfileView { id, name: name@, settings: default_settings() }),
    {
        let r = Profile {
            id,
            name,
            video_config: VideoProfileConfig::default(),
            audio_config: AudioProfileConfig::default(),
            stream_config: StreamingConfig::default(),
            output_config: OutputProfileConfig::default(),
            sources: Vec::new(),
            encoders: Vec::new(),
        };
        assert(r.audio_config.tracks@.map_values(|t: AudioTrackConfig| track_view(t)) =~= seq![
            (0u32, "Track 1"@, Seq::<Seq<char>>::empty(), true),
        ]) by {
            assert(string_views(r.audio_config.tracks@[0].sources@) =~= Seq::<Seq<char>>::empty());
        }
        assert(destination_views(r.stream_config.destinations@) =~= Seq::empty());
        assert(r.sources@.map_values(|s: SourceProfileConfig| source_view(s)) =~= Seq::empty());
        assert(r.encoders@.map_values(|e: (String, EncoderProfileConfig)| (e.0@, encoder_view(e.1)))
            =~= Seq::empty());
        let ghost sv = settings_view(r);
        let ghost d = default_settings();
        assert(sv.video == d.video);
        assert(sv.audio == d.audio);
        assert(sv.destinations == d.destinations);
        assert(sv.primary == d.primary);
        assert(sv.recording == d.recording);
        assert(sv.streaming == d.streaming);
        assert(sv.sources == d.sources);
        assert(sv.encoders == d.encoders);
        assert(sv == d);
        r
    }
}

impl Default for Profile {
    /// An `Untitled` profile with a fresh random identity and default settings.
    fn default() -> (r: Profile)
        ensures
            r@.name == "Untitled"@,
            r@.settings == default_settings(),
    {
        Profile::new(new_profile_id(), owned("Untitled"))
    }
}

/// Mathematical state of the profile store: the profiles by identity and
/// the identity chosen as current (which may name no profile after a delete).
pub struct ProfileStoreView {
    pub profiles: Map<u128, ProfileView>,
    pub current: Option<ProfileId>,
}

/// The profiles of the studio by identity, and which one is current.
pub struct ProfileStore {
    profiles: IdMap<Profile>,
    current: Option<ProfileId>,
}

impl ProfileStore {
    pub closed spec fn wf(&self) -> bool {
        self.profiles.wf()
    }

    pub closed spec fn view(&self) -> ProfileStoreView {
        ProfileStoreView {
            profiles: self.profiles.view().map_values(|p: Profile| p@),
            current: self.current,
        }
    }

    /// A store holds finitely many profiles.
    pub proof fn lemma_view_finite(&self)
        requires
            self.wf(),
        ensures
            self.view().profiles.dom().finite(),
    {
        self.profiles.lemma_view_finite();
        assert(self.view().profiles.dom() =~= self.profiles.view().dom());
    }

    /// No profiles, none current.
    pub fn new() -> (r: ProfileStore)
        ensures
            r.wf(),
            r.view().profiles == Map::<u128, ProfileView>::empty(),
            r.view().current is None,
    {
        let r = ProfileStore { profiles: IdMap::new(), current: None };
        assert(r.view().profiles =~= Map::<u128, ProfileView>::empty());
        r
    }

    /// Stores a profile under its identity (replacing one stored there).
    pub fn insert(&mut self, profile: Profile)
        requires
            old(self).wf(),
        ensures
            final(self).wf(),
            final(self).view() == (ProfileStoreView {
                profiles: old(self).view().profiles.insert(profile.id.0, profile@),
                ..old(self).view()
            }),
    {
        let ghost pv = profile@;
        let key = profile.id.0;
        self.profiles.insert(key, profile);
        assert(self.view().profiles =~= old(self).view().profiles.insert(key, pv));
    }

    /// Creates a profile with default settings under a given identity.
    pub fn create_with_id(&mut self, id: ProfileId, name: String) -> (r: ProfileId)
        requires
            old(self).wf(),
        ensures
            r == id,
            final(self).wf(),
            final(self).view() == (ProfileStoreView {
                profiles: old(self).view().profiles.insert(
                    id.0,
                    ProfileView { id, name: name@, settings: default_settings() },
                ),
                ..old(self).view()
            }),
    {
        let p = Profile::new(id, name);
        self.insert(p);
        id
    }

    /// Creates a profile with default settings under a fresh random identity.
    pub fn create(&mut self, name: String) -> (r: ProfileId)
        requires
            old(self).wf(),
        ensures
            final(self).wf(),
            final(self).view() == (ProfileStoreView {
                profiles: old(self).view().profiles.insert(
                    r.0,
                    ProfileView { id: r, name: name@, settings: default_settings() },
                ),
                ..old(self).view()
            }),
    {
        let id = new_profile_id();
        self.create_with_id(id, name)
    }

    /// Removes a profile and hands it back (the current choice is kept).
    pub fn delete(&mut self, id: ProfileId) -> (r: Option<Profile>)
        requires
            old(self).wf(),
        ensures
            final(self).wf(),
            r is Some <==> old(self).view().profiles.contains_key(id.0),
            r matches Some(p) ==> p@ == old(self).view().profiles[id.0],
            final(self).view() == (ProfileStoreView {
                profiles: old(self).view().profiles.remove(id.0),
                ..old(self).view()
            }),
    {
        let r = self.profiles.remove(id.0);
        assert(self.view().profiles =~= old(self).view().profiles.remove(id.0));
        r
    }

    pub fn get(&self, id: ProfileId) -> (r: Option<&Profile>)
        requires
            self.wf(),
        ensures
            r is Some <==> self.view().profiles.contains_key(id.0),
            r matches Some(p) ==> p@ == self.view().profiles[id.0],
    {
        self.profiles.get(id.0)
    }

    /// The profile of this identity, to change in place.
    pub fn get_mut(&mut self, id: ProfileId) -> (r: Option<&mut Profile>)
        requires
            old(self).wf(),
        ensures
            final(self).wf(),
            r is Some <==> old(self).view().profiles.contains_key(id.0),
            r matches Some(p) ==> p@ == old(self).view().profiles[id.0] && final(self).view() == (
            ProfileStoreView {
                profiles: old(self).view().profiles.insert(id.0, final(p)@),
                ..old(self).view()
            }),
            r is None ==> final(self).view() == old(self).view(),
    {
        proof {
            lemma_profile_views_insert(self.profiles.view(), id.0);
        }
        self.profiles.get_mut(id.0)
    }

    /// The current profile, to change in place.
    pub fn current_mut(&mut self) -> (r: Option<&mut Profile>)
        requires
            old(self).wf(),
        ensures
            final(self).wf(),
            old(self).view().current is None ==> r is None && final(self).view() == old(self).view(),
            old(self).view().current matches Some(id) ==> (r is Some <==> old(
                self,
            ).view().profiles.contains_key(id.0)),
            old(self).view().current matches Some(id) ==> (r matches Some(p) ==> p@ == old(
                self,
            ).view().profiles[id.0] && final(self).view() == (ProfileStoreView {
                profiles: old(self).view().profiles.insert(id.0, final(p)@),
                ..old(self).view()
            })),
            r is None ==> final(self).view() == old(self).view(),
    {
        match self.current {
            Some(id) => self.get_mut(id),
            None => None,
        }
    }

    /// Whether a profile of this identity is stored.
    pub fn contains(&self, id: ProfileId) -> (r: bool)
        requires
            self.wf(),
        ensures
            r == self.view().profiles.contains_key(id.0),
    {
        self.profiles.contains_key(id.0)
    }

    /// The current profile, if one is chosen and stored.
    pub fn current(&self) -> (r: Option<&Profile>)
        requires
            self.wf(),
        ensures
            match self.view().current {
                Some(id) => (r is Some <==> self.view().profiles.contains_key(id.0)) && (r matches Some(
                    p,
                ) ==> p@ == self.view().profiles[id.0]),
                None => r is None,
            },
    {
        match self.current {
            Some(id) => self.profiles.get(id.0),
            None => None,
        }
    }

    /// The identity chosen as current.
    pub fn current_id(&self) -> (r: Option<ProfileId>)
        ensures
            r == self.view().current,
    {
        self.current
    }

    /// Makes a stored profile current; refused for an unknown identity.
    pub fn set_current(&mut self, id: ProfileId) -> (r: Result<(), String>)
        requires
            old(self).wf(),
        ensures
            final(self).wf(),
            old(self).view().profiles.contains_key(id.0) ==> r is Ok && final(self).view() == (
            ProfileStoreView { current: Some(id), ..old(self).view() }),
            !old(self).view().profiles.contains_key(id.0) ==> (r matches Err(m) && m@
                == "Profile not found"@) && final(self).view() == old(self).view(),
    {
        if self.profiles.contains_key(id.0) {
            self.current = Some(id);
            Ok(())
        } else {
            Err(owned("Profile not found"))
        }
    }

    /// The identities of the stored profiles, in the order they were first
    /// stored.
    pub closed spec fn order(&self) -> Seq<u128> {
        self.profiles.names()
    }

    /// The identity and name of every profile, each once, in the order the
    /// profiles were first stored.
    pub fn list(&self) -> (r: Vec<(ProfileId, String)>)
        requires
            self.wf(),
        ensures
            self.order().no_duplicates(),
            forall|k: u128| #[trigger] self.view().profiles.contains_key(k) <==> self.order().contains(k),
            r@.len() == self.order().len(),
            forall|i: int| 0 <= i < r@.len() ==> (#[trigger] r@[i]).0 == self.view().profiles[self.order()[i]].id
                && r@[i].1@ == self.view().profiles[self.order()[i]].name,
    {
        let keys = self.profiles.key_list();
        let vals = self.profiles.values();
        let n = keys.len();
        let mut r: Vec<(ProfileId, String)> = Vec::new();
        let mut i: usize = 0;
        while i < n
            invariant
                n == keys@.len(),
                n == vals@.len(),
                n == self.order().len(),
                forall|j: int| 0 <= j < n ==> #[trigger] keys@[j] == self.order()[j],
                forall|j: int| 0 <= j < n ==> #[trigger] vals@[j] == self.profiles.view()[self.order()[j]],
                i <= n,
                r@.len() == i,
                forall|j: int| 0 <= j < i ==> (#[trigger] r@[j]).0 == vals@[j].id && r@[j].1@ == vals@[j].name@,
            decreases n - i,
        {
            r.push((vals[i].id, vals[i].name.clone()));
            i = i + 1;
        }
        proof {
            assert forall|k: u128| #[trigger] self.view().profiles.contains_key(k) <==> self.order().contains(k) by {
                assert(self.view().profiles.dom().contains(k) == self.profiles.view().dom().contains(k));
            }
            assert forall|j: int| 0 <= j < r@.len() implies (#[trigger] r@[j]).0 == self.view().profiles[self.order()[j]].id
                && r@[j].1@ == self.view().profiles[self.order()[j]].name by {
                let k = self.order()[j];
                assert(self.order().contains(k));
                assert(self.view().profiles[k] == self.profiles.view()[k]@);
            }
        }
        r
    }

    /// A copy of a profile under a given identity and name; refused for an
    /// unknown identity.
    pub fn duplicate_with_id(&mut self, id: ProfileId, new_id: ProfileId, new_name: String) -> (r: Result<ProfileId, String>)
        requires
            old(self).wf(),
        ensures
            final(self).wf(),
            old(self).view().profiles.contains_key(id.0) ==> r == Ok::<ProfileId, String>(new_id)
                && final(self).view() == (ProfileStoreView {
                profiles: old(self).view().profiles.insert(
                    new_id.0,
                    ProfileView {
                        id: new_id,
                        name: new_name@,
                        settings: old(self).view().profiles[id.0].settings,
                    },
                ),
                ..old(self).view()
            }),
            !old(self).view().profiles.contains_key(id.0) ==> (r matches Err(m) && m@
                == "Profile not found"@) && final(self).view() == old(self).view(),
            final(self).view().profiles.dom().finite(),
            r is Ok ==> final(self).view().profiles.len() == old(self).view().profiles.len() + if old(
                self,
            ).view().profiles.contains_key(new_id.0) {
                0int
            } else {
                1int
            },
    {
        proof {
            self.lemma_view_finite();
        }
        let ghost before = self.view();
        match self.profiles.get(id.0) {
            Some(p) => {
                let mut copy = p.clone();
                copy.id = new_id;
                copy.name = new_name;
                self.insert(copy);
                proof {
                    self.lemma_view_finite();
                    assert(self.view().profiles.dom() =~= before.profiles.dom().insert(new_id.0));
                }
                Ok(new_id)
            },
            None => Err(owned("Profile not found")),
        }
    }

    /// A copy of a profile under a fresh random identity and a new name.
    pub fn duplicate(&mut self, id: ProfileId, new_name: String) -> (r: Result<ProfileId, String>)
        requires
            old(self).wf(),
        ensures
            final(self).wf(),
            old(self).view().profiles.contains_key(id.0) ==> (r matches Ok(new_id)
                && final(self).view() == (ProfileStoreView {
                profiles: old(self).view().profiles.insert(
                    new_id.0,
                    ProfileView {
                        id: new_id,
                        name: new_name@,
                        settings: old(self).view().profiles[id.0].settings,
                    },
                ),
                ..old(self).view()
            })),
            !old(self).view().profiles.contains_key(id.0) ==> (r matches Err(m) && m@
                == "Profile not found"@) && final(self).view() == old(self).view(),
            final(self).view().profiles.dom().finite(),
            r matches Ok(new_id) ==> final(self).view().profiles.len() == old(self).view().profiles.len()
                + if old(self).view().profiles.contains_key(new_id.0) {
                0int
            } else {
                1int
            },
    {
        proof {
            self.lemma_view_finite();
        }
        if !self.profiles.contains_key(id.0) {
            return Err(owned("Profile not found"));
        }
        let new_id = new_profile_id();
        self.duplicate_with_id(id, new_id, new_name)
    }

    /// How many profiles are stored.
    pub fn len(&self) -> (r: usize)
        requires
            self.wf(),
        ensures
            r == self.view().profiles.len(),
    {
        assert(self.view().profiles.dom() =~= self.profiles.view().dom());
        self.profiles.len()
    }
}

proof fn lemma_profile_views_insert(m: Map<u128, Profile>, k: u128)
    ensures
        forall|v: Profile| #![trigger m.insert(k, v)] m.insert(k, v).map_values(|p: Profile| p@) == m.map_values(
            |p: Profile| p@,
        ).insert(k, v@),
{
    assert forall|v: Profile| #![trigger m.insert(k, v)] m.insert(k, v).map_values(|p: Profile| p@) == m.map_values(
        |p: Profile| p@,
    ).insert(k, v@) by {
        assert(m.insert(k, v).map_values(|p: Profile| p@) =~= m.map_values(|p: Profile| p@).insert(
            k,
            v@,
        ));
    }
}

/// A profile just created is found under its identity with its name and the
/// default settings; making it current then succeeds.
pub proof fn lemma_created_profile_found(s: ProfileStoreView, id: ProfileId, name: Seq<char>)
    ensures
        s.profiles.insert(id.0, ProfileView { id, name, settings: default_settings() }).contains_key(
            id.0,
        ),
        s.profiles.insert(id.0, ProfileView { id, name, settings: default_settings() })[id.0].name
            == name,
{
}

/// Duplicating keeps the profile copied from and gives the copy, under another
/// identity, the same settings.
pub proof fn lemma_duplicate_keeps_source(s: ProfileStoreView, id: ProfileId, new_id: ProfileId, name: Seq<char>)
    requires
        s.profiles.contains_key(id.0),
        new_id.0 != id.0,
    ensures
        ({
            let after = s.profiles.insert(
                new_id.0,
                ProfileView { id: new_id, name, settings: s.profiles[id.0].settings },
            );
            &&& after[id.0] == s.profiles[id.0]
            &&& after[new_id.0].settings == after[id.0].settings
        }),
{
}

} // verus!
