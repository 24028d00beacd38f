use vstd::prelude::*;
use crate::names::string_views;
use crate::text::owned;

verus! {

/// Application-wide preferences.
#[derive(Clone, Debug)]
pub struct GeneralSettings {
    pub language: String,
    pub theme: String,
    pub check_for_updates: bool,
    pub confirm_on_exit: bool,
    pub minimize_to_tray: bool,
    pub always_on_top: bool,
    pub recording_prefix: String,
    pub recording_suffix: String,
    pub replay_buffer_prefix: String,
    pub replay_buffer_suffix: String,
    pub filename_formatting: String,
    pub overwrite_confirm: bool,
    pub auto_replay_buffer: bool,
}

impl Default for GeneralSettings {
    /// English, dark theme, checking for updates and confirming exit and
    /// overwrites, file names formatted by date and time.
    fn default() -> (r: GeneralSettings)
        ensures
            r.language@ == "en"@,
            r.theme@ == "dark"@,
            r.check_for_updates,
            r.confirm_on_exit,
            !r.minimize_to_tray,
            !r.always_on_top,
            r.recording_prefix@ == Seq::<char>::empty(),
            r.recording_suffix@ == Seq::<char>::empty(),
            r.replay_buffer_prefix@ == Seq::<char>::empty(),
            r.replay_buffer_suffix@ == Seq::<char>::empty(),
            r.filename_formatting@ == "%CCYY-%MM-%DD %hh-%mm-%ss"@,
            r.overwrite_confirm,
            !r.auto_replay_buffer,
    {
        GeneralSettings {
            language: owned("en"),
            theme: owned("dark"),
            check_for_updates: true,
            confirm_on_exit: true,
            minimize_to_tray: false,
            always_on_top: false,
            recording_prefix: String::new(),
            recording_suffix: String::new(),
            replay_buffer_prefix: String::new(),
            replay_buffer_suffix: String::new(),
            filename_formatting: owned("%CCYY-%MM-%DD %hh-%mm-%ss"),
            overwrite_confirm: true,
            auto_replay_buffer: false,
        }
    }
}

/// Video preferences.
#[derive(Debug)]
pub struct VideoSettings {
    pub adapter: u32,
    pub vsync: bool,
    pub fps: u32,
    pub base_resolution: (u32, u32),
    pub output_resolution: (u32, u32),
    pub downscale_filter: String,
    pub disable_audio_monitoring: bool,
}

impl Clone for VideoSettings {
    fn clone(&self) -> (r: Self)
        ensures
            r.adapter == self.adapter,
            r.vsync == self.vsync,
            r.fps == self.fps,
            r.base_resolution == self.base_resolution,
            r.output_resolution == self.output_resolution,
            r.downscale_filter@ == self.downscale_filter@,
            r.disable_audio_monitoring == self.disable_audio_monitoring,
    {
        VideoSettings {
            adapter: self.adapter,
            vsync: self.vsync,
            fps: self.fps,
            base_resolution: (self.base_resolution.0, self.base_resolution.1),
            output_resolution: (self.output_resolution.0, self.output_resolution.1),
            downscale_filter: self.downscale_filter.clone(),
            disable_audio_monitoring: self.disable_audio_monitoring,
        }
    }
}

impl Default for VideoSettings {
    /// First adapter, vsync, 30 fps, 1920x1080 canvas scaled bilinearly to
    /// 1280x720.
    fn default() -> (r: VideoSettings)
        ensures
            r.adapter == 0,
            r.vsync,
            r.fps == 30,
            r.base_resolution == (1920u32, 1080u32),
            r.output_resolution == (1280u32, 720u32),
            r.downscale_filter@ == "bilinear"@,
            !r.disable_audio_monitoring,
    {
        VideoSettings {
            adapter: 0,
            vsync: true,
            fps: 30,
            base_resolution: (1920, 1080),
            output_resolution: (1280, 720),
            downscale_filter: owned("bilinear"),
            disable_audio_monitoring: false,
        }
    }
}

/// Audio preferences.
#[derive(Clone, Debug)]
pub struct AudioSettings {
    pub monitoring_device: String,
    pub monitoring_device_name: String,
    pub disable_audio_ducking: bool,
    pub suppress_warning: bool,
    pub sample_rate: u32,
    pub channel_setup: String,
}

impl Default for AudioSettings {
    /// The default monitoring device, 48 kHz stereo.
    fn default() -> (r: AudioSettings)
        ensures
            r.monitoring_device@ == "default"@,
            r.monitoring_device_name@ == "Default"@,
            !r.disable_audio_ducking,
            !r.suppress_warning,
            r.sample_rate == 48000,
            r.channel_setup@ == "Stereo"@,
    {
        AudioSettings {
            monitoring_device: owned("default"),
            monitoring_device_name: owned("Default"),
            disable_audio_ducking: false,
            suppress_warning: false,
            sample_rate: 48000,
            channel_setup: owned("Stereo"),
        }
    }
}

/// How a dock node arranges its content.
#[derive(Clone, Copy, Debug, PartialEq, Eq, Structural)]
pub enum DockKind {
    Horizontal,
    Vertical,
    Pane,
    Tabs,
}

/// A keyboard shortcut for an action.
#[derive(Clone, Debug)]
pub struct HotkeyBinding {
    pub action: String,
    pub key: String,
    pub modifiers: Vec<String>,
}

/// Owned copies of string slices, in order.
pub fn owned_strings(v: Vec<&str>) -> (r: Vec<String>)
    ensures
        string_views(r@) == v@.map_values(|s: &str| s@),
{
    let mut r: Vec<String> = Vec::new();
    let mut i: usize = 0;
    while i < v.len()
        invariant
            i <= v.len(),
            r@.len() == i,
            forall|k: int| 0 <= k < i ==> #[trigger] r@[k]@ == v@[k]@,
        decreases v.len() - i,
    {
        r.push(owned(v[i]));
        i = i + 1;
    }
    assert(string_views(r@) =~= v@.map_values(|s: &str| s@));
    r
}

impl HotkeyBinding {
    pub fn new(action: &str, key: &str, modifiers: Vec<&str>) -> (r: HotkeyBinding)
        ensures
            r.action@ == action@,
            r.key@ == key@,
            string_views(r.modifiers@) == modifiers@.map_values(|s: &str| s@),
    {
        HotkeyBinding { action: owned(action), key: owned(key), modifiers: owned_strings(modifiers) }
    }
}

} // verus!
