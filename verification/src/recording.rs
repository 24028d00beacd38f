use vstd::prelude::*;

use crate::names::string_views;
use crate::scene::item_views;
use crate::scene_item::{SceneItem, SceneItemView};
use crate::types::SceneItemId;
use crate::text::{
    contains_seq, contains_str, decimal, owned, push_arg, push_char, push_decimal, push_owned_arg,
    push_str, str_eq, substring,
};

verus! {

/// `s` begins with `prefix`.
pub open spec fn starts_with(s: Seq<char>, prefix: Seq<char>) -> bool {
    prefix.len() <= s.len() && s.subrange(0, prefix.len() as int) == prefix
}

/// Whether `s` begins with `prefix`.
pub fn starts_with_str(s: &str, prefix: &str) -> (r: bool)
    ensures
        r == starts_with(s@, prefix@),
{
    let n = s.unicode_len();
    let m = prefix.unicode_len();
    if m > n {
        return false;
    }
    let mut k: usize = 0;
    while k < m
        invariant
            n == s@.len(),
            m == prefix@.len(),
            m <= n,
            k <= m,
            forall|j: int| 0 <= j < k ==> s@[j] == prefix@[j],
        decreases m - k,
    {
        if s.get_char(k) != prefix.get_char(k) {
            assert(s@.subrange(0, m as int)[k as int] != prefix@[k as int]);
            return false;
        }
        k = k + 1;
    }
    assert(s@.subrange(0, m as int) =~= prefix@);
    true
}

/// A scene item is visible and its source name begins with `prefix`.
pub open spec fn picks(item: SceneItemView, prefix: Seq<char>) -> bool {
    item.visible && starts_with(item.source_name, prefix)
}

/// Position of the first item that `picks` chooses, bottom first.
pub open spec fn first_pick(items: Seq<SceneItemView>, prefix: Seq<char>) -> Option<int>
    decreases items.len(),
{
    if items.len() == 0 {
        None
    } else if picks(items[0], prefix) {
        Some(0)
    } else {
        match first_pick(items.drop_first(), prefix) {
            Some(i) => Some(i + 1),
            None => None,
        }
    }
}

proof fn lemma_first_pick(items: Seq<SceneItemView>, prefix: Seq<char>, i: int)
    requires
        0 <= i <= items.len(),
        forall|j: int| 0 <= j < i ==> !picks(#[trigger] items[j], prefix),
        i == items.len() || picks(items[i], prefix),
    ensures
        first_pick(items, prefix) == (if i == items.len() {
            None
        } else {
            Some(i)
        }),
    decreases i,
{
    if i > 0 {
        assert forall|j: int| 0 <= j < i - 1 implies !picks(#[trigger] items.drop_first()[j], prefix) by {
            assert(items.drop_first()[j] == items[j + 1]);
        }
        lemma_first_pick(items.drop_first(), prefix, i - 1);
    }
}

/// Position of the first visible item whose source name begins with `prefix`.
pub fn find_pick(items: &[SceneItem], prefix: &str) -> (r: Option<usize>)
    ensures
        match r {
            Some(i) => i < items@.len() && first_pick(item_views(items@), prefix@) == Some(i as int),
            None => first_pick(item_views(items@), prefix@) is None,
        },
{
    let ghost v = item_views(items@);
    let n = items.len();
    let mut i: usize = 0;
    while i < n
        invariant
            n == items@.len(),
            v == item_views(items@),
            i <= n,
            forall|j: int| 0 <= j < i ==> !picks(#[trigger] v[j], prefix@),
        decreases n - i,
    {
        let item = &items[i];
        if item.is_visible() && starts_with_str(item.name(), prefix) {
            proof {
                lemma_first_pick(v, prefix@, i as int);
            }
            return Some(i);
        }
        i = i + 1;
    }
    proof {
        lemma_first_pick(v, prefix@, n as int);
    }
    None
}

/// Where a recording's picture comes from: a window by its title, or a
/// rectangle of the desktop.
#[derive(Clone, Debug)]
pub enum CaptureInput {
    Window { title: String },
    Screen { x: i32, y: i32, width: u32, height: u32 },
}

/// Mathematical value of a capture input.
pub enum CaptureInputView {
    Window(Seq<char>),
    Screen(i32, i32, u32, u32),
}

impl View for CaptureInput {
    type V = CaptureInputView;

    open spec fn view(&self) -> CaptureInputView {
        match self {
            CaptureInput::Window { title } => CaptureInputView::Window(title@),
            CaptureInput::Screen { x, y, width, height } => CaptureInputView::Screen(
                *x,
                *y,
                *width,
                *height,
            ),
        }
    }
}

/// The title a window capture item names: its source name without a leading
/// `Window: `.
pub open spec fn window_title_of(name: Seq<char>) -> Seq<char> {
    if starts_with(name, "Window: "@) {
        name.subrange("Window: "@.len() as int, name.len() as int)
    } else {
        name
    }
}

/// The monitor a display capture item names: the second where its name holds
/// `Monitor 2`, else the first.
pub open spec fn monitor_number(name: Seq<char>) -> int {
    if contains_seq(name, "Monitor 2"@) {
        1
    } else {
        0
    }
}

/// The primary monitor's area, used where nothing else is known.
pub open spec fn default_screen() -> CaptureInputView {
    CaptureInputView::Screen(0, 0, 1920, 1080)
}

/// What a recording captures, given the items of the current scene (bottom
/// first) and the monitors as (x, y, width, height): the first visible window
/// capture item; else the monitor of the first visible display capture item
/// (its area where that monitor exists); else the primary monitor's area.
pub open spec fn capture_input_for(items: Seq<SceneItemView>, monitors: Seq<(i32, i32, u32, u32)>) -> CaptureInputView {
    match first_pick(items, "Window:"@) {
        Some(i) => CaptureInputView::Window(window_title_of(items[i].source_name)),
        None => match first_pick(items, "Display Capture"@) {
            Some(i) => {
                let d = monitor_number(items[i].source_name);
                if d < monitors.len() {
                    CaptureInputView::Screen(monitors[d].0, monitors[d].1, monitors[d].2, monitors[d].3)
                } else {
                    default_screen()
                }
            },
            None => default_screen(),
        },
    }
}

/// The capture input of a recording (see `capture_input_for`).
pub fn recording_capture_input(items: &[SceneItem], monitors: &Vec<(i32, i32, u32, u32)>) -> (r:
    CaptureInput)
    ensures
        r@ == capture_input_for(item_views(items@), monitors@),
{
    let ghost v = item_views(items@);
    match find_pick(items, "Window:") {
        Some(i) => {
            let name = items[i].name();
            let prefix = "Window: ";
            let title = if starts_with_str(name, prefix) {
                substring(name, prefix.unicode_len(), name.unicode_len())
            } else {
                owned(name)
            };
            CaptureInput::Window { title }
        },
        None => match find_pick(items, "Display Capture") {
            Some(i) => {
                let d: usize = if contains_str(items[i].name(), "Monitor 2") {
                    1
                } else {
                    0
                };
                if d < monitors.len() {
                    let m = monitors[d];
                    CaptureInput::Screen { x: m.0, y: m.1, width: m.2, height: m.3 }
                } else {
                    CaptureInput::Screen { x: 0, y: 0, width: 1920, height: 1080 }
                }
            },
            None => CaptureInput::Screen { x: 0, y: 0, width: 1920, height: 1080 },
        },
    }
}

/// The device id of the first audio channel (given as (is desktop audio,
/// device id)) of the wanted kind, or `disabled` where there is none.
pub open spec fn device_of(channels: Seq<(bool, Seq<char>)>, desktop: bool) -> Seq<char>
    decreases channels.len(),
{
    if channels.len() == 0 {
        "disabled"@
    } else if channels[0].0 == desktop {
        channels[0].1
    } else {
        device_of(channels.drop_first(), desktop)
    }
}

/// The channels as plain values.
pub open spec fn channel_views(channels: Seq<(bool, String)>) -> Seq<(bool, Seq<char>)> {
    channels.map_values(|c: (bool, String)| (c.0, c.1@))
}

proof fn lemma_device_of(channels: Seq<(bool, Seq<char>)>, desktop: bool, i: int)
    requires
        0 <= i <= channels.len(),
        forall|j: int| 0 <= j < i ==> (#[trigger] channels[j]).0 != desktop,
    ensures
        i == channels.len() ==> device_of(channels, desktop) == "disabled"@,
        i < channels.len() && channels[i].0 == desktop ==> device_of(channels, desktop) == channels[i].1,
    decreases i,
{
    if i > 0 {
        assert forall|j: int| 0 <= j < i - 1 implies (#[trigger] channels.drop_first()[j]).0 != desktop by {
            assert(channels.drop_first()[j] == channels[j + 1]);
        }
        lemma_device_of(channels.drop_first(), desktop, i - 1);
    }
}

/// The device of the first desktop-audio channel (`desktop`) or of the first
/// microphone channel (`!desktop`), or `disabled`.
pub fn pick_audio_device(channels: &Vec<(bool, String)>, desktop: bool) -> (r: String)
    ensures
        r@ == device_of(channel_views(channels@), desktop),
{
    let ghost v = channel_views(channels@);
    let n = channels.len();
    let mut i: usize = 0;
    while i < n
        invariant
            n == channels@.len(),
            v == channel_views(channels@),
            i <= n,
            forall|j: int| 0 <= j < i ==> (#[trigger] v[j]).0 != desktop,
        decreases n - i,
    {
        if channels[i].0 == desktop {
            proof {
                lemma_device_of(v, desktop, i as int);
            }
            return channels[i].1.clone();
        }
        i = i + 1;
    }
    proof {
        lemma_device_of(v, desktop, n as int);
    }
    owned("disabled")
}

/// The `dshow` input that takes the desktop audio where its device is `default`.
pub open spec fn desktop_fallback() -> Seq<char> {
    "audio=Broadcast Stream Mix (TC-HELICON GoXLR)"@
}

/// The `dshow` input that takes the microphone where its device is `default`.
pub open spec fn mic_fallback() -> Seq<char> {
    "audio=Chat Mic (TC-HELICON GoXLR)"@
}

/// The `dshow` input of an audio device: `fallback` for `default`, the id as
/// it is where it begins with `audio=`, else the id after `audio=`.
pub open spec fn audio_input_spec(device: Seq<char>, fallback: Seq<char>) -> Seq<char> {
    if device == "default"@ {
        fallback
    } else if starts_with(device, "audio="@) {
        device
    } else {
        "audio="@ + device
    }
}

/// The `dshow` input of an audio device (see `audio_input_spec`).
pub fn audio_input(device: &str, fallback: &str) -> (r: String)
    ensures
        r@ == audio_input_spec(device@, fallback@),
{
    if str_eq(device, "default") {
        owned(fallback)
    } else if starts_with_str(device, "audio=") {
        owned(device)
    } else {
        let mut s = owned("audio=");
        push_str(&mut s, device);
        s
    }
}

/// `x` in decimal, with a `-` before a negative value (as `Display` writes it).
pub open spec fn signed_decimal(x: int) -> Seq<char> {
    if x < 0 {
        seq!['-'] + decimal((-x) as nat)
    } else {
        decimal(x as nat)
    }
}

fn signed_decimal_string(x: i32) -> (r: String)
    ensures
        r@ == signed_decimal(x as int),
{
    let mut s = String::new();
    if x < 0 {
        push_char(&mut s, '-');
        let m: i64 = 0 - (x as i64);
        push_decimal(&mut s, m as u64);
    } else {
        push_decimal(&mut s, x as u64);
    }
    assert(s@ =~= signed_decimal(x as int));
    s
}

/// The capture part of a recording's command line: `gdigrab` at 30 fps with
/// the mouse pointer, of a window by title or of an area of the desktop.
pub open spec fn capture_args(input: CaptureInputView) -> Seq<Seq<char>> {
    seq!["-f"@, "gdigrab"@, "-framerate"@, "30"@, "-draw_mouse"@, "1"@] + match input {
        CaptureInputView::Window(t) => seq!["-i"@, "title="@ + t],
        CaptureInputView::Screen(x, y, w, h) => seq![
            "-offset_x"@,
            signed_decimal(x as int),
            "-offset_y"@,
            signed_decimal(y as int),
            "-video_size"@,
            decimal(w as nat) + "x"@ + decimal(h as nat),
            "-i"@,
            "desktop"@,
        ],
    }
}

/// The audio inputs: desktop audio unless disabled, then the microphone
/// unless disabled or the same device.
pub open spec fn audio_args(desktop: Seq<char>, mic: Seq<char>) -> Seq<Seq<char>> {
    (if desktop != "disabled"@ {
        seq!["-f"@, "dshow"@, "-i"@, audio_input_spec(desktop, desktop_fallback())]
    } else {
        Seq::<Seq<char>>::empty()
    }) + (if mic != "disabled"@ && mic != desktop {
        seq!["-f"@, "dshow"@, "-i"@, audio_input_spec(mic, mic_fallback())]
    } else {
        Seq::<Seq<char>>::empty()
    })
}

/// An encoder chosen under a name that mentions NVENC or NVIDIA runs on the GPU.
pub open spec fn uses_nvenc(label: Seq<char>) -> bool {
    contains_seq(label, "NVENC"@) || contains_seq(label, "NVIDIA"@)
}

/// The video codec: NVENC at a constant `bitrate` kbps (buffer twice that),
/// or libx264 `fast` at CRF 23.
pub open spec fn video_codec_args(nvenc: bool, bitrate: u32) -> Seq<Seq<char>> {
    if nvenc {
        seq![
            "-c:v"@,
            "h264_nvenc"@,
            "-preset"@,
            "p4"@,
            "-tune"@,
            "ll"@,
            "-gpu"@,
            "0"@,
            "-rc"@,
            "cbr"@,
            "-b:v"@,
            decimal(bitrate as nat) + "k"@,
            "-maxrate"@,
            decimal(bitrate as nat) + "k"@,
            "-bufsize"@,
            decimal((bitrate * 2) as nat) + "k"@,
        ]
    } else {
        seq!["-c:v"@, "libx264"@, "-preset"@, "fast"@, "-tune"@, "zerolatency"@, "-crf"@, "23"@]
    }
}

/// The audio codec where there is audio: AAC at 192 kbps at the sample rate,
/// in one channel for `mono`.
pub open spec fn audio_codec_args(desktop: Seq<char>, mic: Seq<char>, sample_rate: Seq<char>, channel_mode: Seq<char>) -> Seq<Seq<char>> {
    if desktop != "disabled"@ || mic != "disabled"@ {
        seq!["-c:a"@, "aac"@, "-b:a"@, "192k"@, "-ar"@, sample_rate] + (if channel_mode == "mono"@ {
            seq!["-ac"@, "1"@]
        } else {
            Seq::<Seq<char>>::empty()
        })
    } else {
        Seq::<Seq<char>>::empty()
    }
}

/// The container named by the file format (`mp4`, `mkv` as Matroska, `flv`);
/// other formats leave it to `ffmpeg`.
pub open spec fn container_args(format: Seq<char>) -> Seq<Seq<char>> {
    if format == "mp4"@ {
        seq!["-f"@, "mp4"@]
    } else if format == "mkv"@ {
        seq!["-f"@, "matroska"@]
    } else if format == "flv"@ {
        seq!["-f"@, "flv"@]
    } else {
        Seq::<Seq<char>>::empty()
    }
}

/// The container follows the chosen file format: `mp4` and `flv` name
/// their own muxer and `mkv` names `matroska`; any other format gives no
/// `-f`. Two different formats never name the same muxer.
pub proof fn lemma_container_follows_format(f: Seq<char>, g: Seq<char>)
    ensures
        container_args(f).len() == 0 || container_args(f).len() == 2,
        container_args(f).len() == 2 ==> container_args(f)[0] == "-f"@ && (container_args(f)[1] == f || (f
            == "mkv"@ && container_args(f)[1] == "matroska"@)),
        (f == "mp4"@ || f == "mkv"@ || f == "flv"@) <==> container_args(f).len() == 2,
        f != g && container_args(f).len() == 2 && container_args(g).len() == 2 ==> container_args(f)[1]
            != container_args(g)[1],
{
    reveal_strlit("mp4");
    reveal_strlit("mkv");
    reveal_strlit("flv");
    reveal_strlit("matroska");
    reveal_strlit("-f");
    assert("mp4"@ != "mkv"@) by {
        assert("mp4"@[1] != "mkv"@[1]);
    }
    assert("mp4"@ != "flv"@) by {
        assert("mp4"@[0] != "flv"@[0]);
    }
    assert("mkv"@ != "flv"@) by {
        assert("mkv"@[0] != "flv"@[0]);
    }
    assert("matroska"@ != "mp4"@) by {
        assert("matroska"@.len() != "mp4"@.len());
    }
    assert("matroska"@ != "flv"@) by {
        assert("matroska"@.len() != "flv"@.len());
    }
}

/// The whole `ffmpeg` command line of a recording to `output_path` at 30 fps.
pub open spec fn recording_args_spec(
    input: CaptureInputView,
    encoder_label: Seq<char>,
    desktop: Seq<char>,
    mic: Seq<char>,
    bitrate: u32,
    sample_rate: Seq<char>,
    channel_mode: Seq<char>,
    format: Seq<char>,
    output_path: Seq<char>,
) -> Seq<Seq<char>> {
    capture_args(input) + audio_args(desktop, mic) + video_codec_args(uses_nvenc(encoder_label), bitrate)
        + audio_codec_args(desktop, mic, sample_rate, channel_mode) + seq!["-r"@, "30"@] + container_args(
        format,
    ) + seq!["-y"@, output_path]
}

fn push_kbps(a: &mut Vec<String>, n: u64)
    ensures
        string_views(final(a)@) == string_views(old(a)@).push(decimal(n as nat) + "k"@),
{
    let mut s = String::new();
    push_decimal(&mut s, n);
    push_str(&mut s, "k");
    assert(s@ =~= decimal(n as nat) + "k"@);
    push_owned_arg(a, s);
}

fn push_capture_args(a: &mut Vec<String>, input: &CaptureInput)
    ensures
        string_views(final(a)@) == string_views(old(a)@) + capture_args(input@),
{
    let ghost before = string_views(a@);
    push_arg(a, "-f");
    push_arg(a, "gdigrab");
    push_arg(a, "-framerate");
    push_arg(a, "30");
    push_arg(a, "-draw_mouse");
    push_arg(a, "1");
    match input {
        CaptureInput::Window { title } => {
            push_arg(a, "-i");
            let mut s = owned("title=");
            push_str(&mut s, title.as_str());
            push_owned_arg(a, s);
        },
        CaptureInput::Screen { x, y, width, height } => {
            push_arg(a, "-offset_x");
            push_owned_arg(a, signed_decimal_string(*x));
            push_arg(a, "-offset_y");
            push_owned_arg(a, signed_decimal_string(*y));
            push_arg(a, "-video_size");
            let mut s = String::new();
            push_decimal(&mut s, *width as u64);
            push_str(&mut s, "x");
            push_decimal(&mut s, *height as u64);
            assert(s@ =~= decimal(*width as nat) + "x"@ + decimal(*height as nat));
            push_owned_arg(a, s);
            push_arg(a, "-i");
            push_arg(a, "desktop");
        },
    }
    assert(string_views(a@) =~= before + capture_args(input@));
}

fn push_audio_args(a: &mut Vec<String>, desktop: &str, mic: &str)
    ensures
        string_views(final(a)@) == string_views(old(a)@) + audio_args(desktop@, mic@),
{
    let ghost before = string_views(a@);
    let desktop_on = !str_eq(desktop, "disabled");
    if desktop_on {
        push_arg(a, "-f");
        push_arg(a, "dshow");
        push_arg(a, "-i");
        push_owned_arg(a, audio_input(desktop, "audio=Broadcast Stream Mix (TC-HELICON GoXLR)"));
    }
    let ghost mid = string_views(a@);
    if !str_eq(mic, "disabled") && !str_eq(mic, desktop) {
        push_arg(a, "-f");
        push_arg(a, "dshow");
        push_arg(a, "-i");
        push_owned_arg(a, audio_input(mic, "audio=Chat Mic (TC-HELICON GoXLR)"));
    }
    proof {
        let first = if desktop@ != "disabled"@ {
            seq!["-f"@, "dshow"@, "-i"@, audio_input_spec(desktop@, desktop_fallback())]
        } else {
            Seq::<Seq<char>>::empty()
        };
        assert(mid =~= before + first);
    }
    assert(string_views(a@) =~= before + audio_args(desktop@, mic@));
}

fn push_video_codec_args(a: &mut Vec<String>, nvenc: bool, bitrate: u32)
    requires
        nvenc ==> bitrate * 2 <= u32::MAX,
    ensures
        string_views(final(a)@) == string_views(old(a)@) + video_codec_args(nvenc, bitrate),
{
    let ghost before = string_views(a@);
    push_arg(a, "-c:v");
    if nvenc {
        push_arg(a, "h264_nvenc");
        push_arg(a, "-preset");
        push_arg(a, "p4");
        push_arg(a, "-tune");
        push_arg(a, "ll");
        push_arg(a, "-gpu");
        push_arg(a, "0");
        push_arg(a, "-rc");
        push_arg(a, "cbr");
        push_arg(a, "-b:v");
        push_kbps(a, bitrate as u64);
        push_arg(a, "-maxrate");
        push_kbps(a, bitrate as u64);
        push_arg(a, "-bufsize");
        push_kbps(a, (bitrate * 2) as u64);
    } else {
        push_arg(a, "libx264");
        push_arg(a, "-preset");
        push_arg(a, "fast");
        push_arg(a, "-tune");
        push_arg(a, "zerolatency");
        push_arg(a, "-crf");
        push_arg(a, "23");
    }
    assert(string_views(a@) =~= before + video_codec_args(nvenc, bitrate));
}

fn push_audio_codec_args(a: &mut Vec<String>, desktop: &str, mic: &str, sample_rate: &str, channel_mode: &str)
    ensures
        string_views(final(a)@) == string_views(old(a)@) + audio_codec_args(
            desktop@,
            mic@,
            sample_rate@,
            channel_mode@,
        ),
{
    let ghost before = string_views(a@);
    if !str_eq(desktop, "disabled") || !str_eq(mic, "disabled") {
        push_arg(a, "-c:a");
        push_arg(a, "aac");
        push_arg(a, "-b:a");
        push_arg(a, "192k");
        push_arg(a, "-ar");
        push_arg(a, sample_rate);
        if str_eq(channel_mode, "mono") {
            push_arg(a, "-ac");
            push_arg(a, "1");
        }
    }
    assert(string_views(a@) =~= before + audio_codec_args(desktop@, mic@, sample_rate@, channel_mode@));
}

fn push_container_args(a: &mut Vec<String>, format: &str)
    ensures
        string_views(final(a)@) == string_views(old(a)@) + container_args(format@),
{
    let ghost before = string_views(a@);
    if str_eq(format, "mp4") {
        push_arg(a, "-f");
        push_arg(a, "mp4");
    } else if str_eq(format, "mkv") {
        push_arg(a, "-f");
        push_arg(a, "matroska");
    } else if str_eq(format, "flv") {
        push_arg(a, "-f");
        push_arg(a, "flv");
    }
    assert(string_views(a@) =~= before + container_args(format@));
}

/// The `ffmpeg` command line of a recording (see `recording_args_spec`).
pub fn recording_ffmpeg_args(
    input: &CaptureInput,
    encoder_label: &str,
    desktop: &str,
    mic: &str,
    bitrate: u32,
    sample_rate: &str,
    channel_mode: &str,
    format: &str,
    output_path: &str,
) -> (r: Vec<String>)
    requires
        uses_nvenc(encoder_label@) ==> bitrate * 2 <= u32::MAX,
    ensures
        string_views(r@) == recording_args_spec(
            input@,
            encoder_label@,
            desktop@,
            mic@,
            bitrate,
            sample_rate@,
            channel_mode@,
            format@,
            output_path@,
        ),
{
    let nvenc = contains_str(encoder_label, "NVENC") || contains_str(encoder_label, "NVIDIA");
    let mut a: Vec<String> = Vec::new();
    assert(string_views(a@) =~= Seq::<Seq<char>>::empty());
    push_capture_args(&mut a, input);
    push_audio_args(&mut a, desktop, mic);
    push_video_codec_args(&mut a, nvenc, bitrate);
    push_audio_codec_args(&mut a, desktop, mic, sample_rate, channel_mode);
    let ghost before_rate = string_views(a@);
    push_arg(&mut a, "-r");
    push_arg(&mut a, "30");
    assert(string_views(a@) =~= before_rate + seq!["-r"@, "30"@]);
    push_container_args(&mut a, format);
    let ghost before_out = string_views(a@);
    push_arg(&mut a, "-y");
    push_arg(&mut a, output_path);
    assert(string_views(a@) =~= before_out + seq!["-y"@, output_path@]);
    assert(string_views(a@) =~= recording_args_spec(
        input@,
        encoder_label@,
        desktop@,
        mic@,
        bitrate,
        sample_rate@,
        channel_mode@,
        format@,
        output_path@,
    ));
    a
}


/// A visible window or display capture item shows in the preview, under its
/// identity and name.
pub open spec fn capture_entry(v: SceneItemView) -> Option<(SceneItemId, Seq<char>)> {
    if picks(v, "Window:"@) || picks(v, "Display Capture"@) {
        Some((v.id, v.source_name))
    } else {
        None
    }
}

/// The entries as plain values.
pub open spec fn entry_views(s: Seq<(SceneItemId, String)>) -> Seq<(SceneItemId, Seq<char>)> {
    s.map_values(|e: (SceneItemId, String)| (e.0, e.1@))
}

/// The capture items of a scene that the preview shows, bottom first.
pub fn preview_capture_items(items: &[SceneItem]) -> (r: Vec<(SceneItemId, String)>)
    ensures
        entry_views(r@) == item_views(items@).filter_map(|v: SceneItemView| capture_entry(v)),
{
    let ghost v = item_views(items@);
    let ghost f = |v: SceneItemView| capture_entry(v);
    let n = items.len();
    let mut r: Vec<(SceneItemId, String)> = Vec::new();
    let mut i: usize = 0;
    assert(v.subrange(0, 0) =~= Seq::<SceneItemView>::empty());
    assert(entry_views(r@) =~= Seq::<(SceneItemId, Seq<char>)>::empty());
    while i < n
        invariant
            n == items@.len(),
            v == item_views(items@),
            f == (|v: SceneItemView| capture_entry(v)),
            i <= n,
            entry_views(r@) == v.subrange(0, i as int).filter_map(f),
        decreases n - i,
    {
        let item = &items[i];
        let ghost pre = v.subrange(0, i + 1);
        assert(pre.drop_last() =~= v.subrange(0, i as int));
        assert(pre.last() == item@);
        if item.is_visible() && (starts_with_str(item.name(), "Window:") || starts_with_str(
            item.name(),
            "Display Capture",
        )) {
            let ghost before = entry_views(r@);
            r.push((item.id(), owned(item.name())));
            assert(entry_views(r@) =~= before + seq![(item@.id, item@.source_name)]);
        }
        i = i + 1;
    }
    assert(v.subrange(0, n as int) =~= v);
    r
}

} // verus!
