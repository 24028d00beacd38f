use vstd::prelude::*;
use crate::text::{
    decimal, find_char, first_index_of, lemma_first_index_of, parse_i32_range, parse_i32_spec,
    push_char, push_decimal, push_str,
};

verus! {

/// What the stream controls show as running.
#[derive(Clone, Copy, Debug, PartialEq, Eq, Structural)]
pub struct StreamControls {
    pub streaming: bool,
    pub recording: bool,
    pub replay_buffer: bool,
    pub virtual_cam: bool,
}

impl Default for StreamControls {
    /// Nothing running.
    fn default() -> (r: StreamControls)
        ensures
            r == (StreamControls {
                streaming: false,
                recording: false,
                replay_buffer: false,
                virtual_cam: false,
            }),
    {
        StreamControls { streaming: false, recording: false, replay_buffer: false, virtual_cam: false }
    }
}

/// A monitor that can be captured.
#[derive(Clone, Debug)]
pub struct DxgiOutputInfo {
    pub position_x: i32,
    pub position_y: i32,
    pub width: u32,
    pub height: u32,
    pub device_name: String,
    pub is_primary: bool,
}

/// A captured screen image.
#[derive(Clone, Debug)]
pub struct DxgiFrame {
    pub data: Vec<u8>,
    pub width: u32,
    pub height: u32,
    pub position_x: i32,
    pub position_y: i32,
}

/// `n` in decimal, with a leading zero below 10 (`{:02}`).
pub open spec fn two_digits(n: nat) -> Seq<char> {
    if n < 10 {
        seq!['0'] + decimal(n)
    } else {
        decimal(n)
    }
}

/// A duration in seconds as `HH:MM:SS` (hours may take more digits).
pub open spec fn clock_text(seconds: u64) -> Seq<char> {
    two_digits((seconds / 3600) as nat) + ":"@ + two_digits(((seconds % 3600) / 60) as nat) + ":"@
        + two_digits((seconds % 60) as nat)
}

fn push_two_digits(s: &mut String, n: u64)
    ensures
        final(s)@ == old(s)@ + two_digits(n as nat),
{
    if n < 10 {
        push_char(s, '0');
    }
    push_decimal(s, n);
    assert(final(s)@ =~= old(s)@ + two_digits(n as nat));
}

/// A duration in seconds as `HH:MM:SS`.
pub fn format_time(seconds: u64) -> (r: String)
    ensures
        r@ == clock_text(seconds),
{
    let h = seconds / 3600;
    let m = (seconds % 3600) / 60;
    let sec = seconds % 60;
    let mut s = String::new();
    push_two_digits(&mut s, h);
    push_str(&mut s, ":");
    push_two_digits(&mut s, m);
    push_str(&mut s, ":");
    push_two_digits(&mut s, sec);
    assert(s@ =~= clock_text(seconds));
    s
}

/// A signed number in decimal, with `-` before negative ones.
pub open spec fn signed_decimal(n: int) -> Seq<char> {
    if n < 0 {
        seq!['-'] + decimal((-n) as nat)
    } else {
        decimal(n as nat)
    }
}

/// How long ago a message was written, from whole seconds: seconds below a
/// minute, minutes below an hour, hours beyond (each rounded toward zero).
pub open spec fn age_text(seconds: i64) -> Seq<char> {
    if seconds < 60 {
        signed_decimal(seconds as int) + "s"@
    } else if seconds / 60 < 60 {
        decimal((seconds / 60) as nat) + "m"@
    } else {
        decimal((seconds / 3600) as nat) + "h"@
    }
}

fn push_signed(s: &mut String, n: i64)
    ensures
        final(s)@ == old(s)@ + signed_decimal(n as int),
{
    if n < 0 {
        push_char(s, '-');
        let m: u64 = if n == i64::MIN {
            9223372036854775808u64
        } else {
            (0 - n) as u64
        };
        push_decimal(s, m);
        assert(final(s)@ =~= old(s)@ + signed_decimal(n as int));
    } else {
        push_decimal(s, n as u64);
    }
}

/// The age label of a chat message that is `seconds` old.
pub fn format_age(seconds: i64) -> (r: String)
    ensures
        r@ == age_text(seconds),
{
    let mut s = String::new();
    if seconds < 60 {
        push_signed(&mut s, seconds);
        push_str(&mut s, "s");
    } else if seconds / 60 < 60 {
        push_decimal(&mut s, (seconds / 60) as u64);
        push_str(&mut s, "m");
    } else {
        push_decimal(&mut s, (seconds / 3600) as u64);
        push_str(&mut s, "h");
    }
    assert(s@ =~= age_text(seconds));
    s
}


/// `s` cut at every `sep`, as `str::split` cuts it: each `sep` closes a piece
/// and opens the next, so an empty `s` is one empty piece.
pub open spec fn split_on(s: Seq<char>, sep: char) -> Seq<Seq<char>>
    decreases s.len(),
{
    if s.len() == 0 {
        seq![Seq::<char>::empty()]
    } else {
        let r = split_on(s.drop_last(), sep);
        if s.last() == sep {
            r.push(Seq::<char>::empty())
        } else {
            r.update(r.len() - 1, r.last().push(s.last()))
        }
    }
}

/// The capture rectangle of the primary monitor, used where a source name gives none.
pub open spec fn default_capture_rect() -> (i32, i32, i32, i32) {
    (0, 0, 1920, 1080)
}

/// The parsed value, or `d` where there is none.
pub open spec fn or_default(v: Option<i32>, d: i32) -> i32 {
    match v {
        Some(x) => x,
        None => d,
    }
}

/// One `key:value` parameter of a monitor source name applied to the
/// rectangle `c`: `x`, `y`, `w` and `h` set the position and size (an
/// unreadable value gives 0, 0, 1920 and 1080); other keys, and parameters
/// without `:`, change nothing.
pub open spec fn apply_capture_param(c: (i32, i32, i32, i32), param: Seq<char>) -> (i32, i32, i32, i32) {
    let k = first_index_of(param, ':') as int;
    if k < param.len() {
        let key = param.subrange(0, k);
        let value = parse_i32_spec(param.subrange(k + 1, param.len() as int));
        if key == seq!['x'] {
            (or_default(value, 0), c.1, c.2, c.3)
        } else if key == seq!['y'] {
            (c.0, or_default(value, 0), c.2, c.3)
        } else if key == seq!['w'] {
            (c.0, c.1, or_default(value, 1920), c.3)
        } else if key == seq!['h'] {
            (c.0, c.1, c.2, or_default(value, 1080))
        } else {
            c
        }
    } else {
        c
    }
}

/// The capture rectangle (x, y, width, height) that a monitor source name
/// describes: the parameters after its first `|`, separated by `|`, applied
/// in order to the primary monitor's rectangle.
pub open spec fn monitor_coords(name: Seq<char>) -> (i32, i32, i32, i32) {
    let p = first_index_of(name, '|') as int;
    if p < name.len() {
        split_on(name.subrange(p + 1, name.len() as int), '|').fold_left(
            default_capture_rect(),
            |c: (i32, i32, i32, i32), param: Seq<char>| apply_capture_param(c, param),
        )
    } else {
        default_capture_rect()
    }
}

fn apply_capture_param_exec(c: (i32, i32, i32, i32), s: &str, lo: usize, hi: usize) -> (r: (
    i32,
    i32,
    i32,
    i32,
))
    requires
        lo <= hi <= s@.len(),
    ensures
        r == apply_capture_param(c, s@.subrange(lo as int, hi as int)),
{
    let ghost param = s@.subrange(lo as int, hi as int);
    let mut k = lo;
    while k < hi && s.get_char(k) != ':'
        invariant
            hi <= s@.len(),
            lo <= k <= hi,
            forall|j: int| lo <= j < k ==> s@[j] != ':',
        decreases hi - k,
    {
        k = k + 1;
    }
    proof {
        lemma_first_index_of(param, ':', k - lo);
    }
    if k == hi {
        return c;
    }
    let ghost key = param.subrange(0, k - lo);
    assert(key =~= s@.subrange(lo as int, k as int));
    assert(param.subrange(k - lo + 1, param.len() as int) =~= s@.subrange(k + 1, hi as int));
    let value = parse_i32_range(s, k + 1, hi);
    let one = k - lo == 1;
    let kc = s.get_char(lo);
    proof {
        if one {
            assert(key =~= seq![kc]);
        }
        assert(key == seq!['x'] ==> one && kc == 'x');
        assert(key == seq!['y'] ==> one && kc == 'y');
        assert(key == seq!['w'] ==> one && kc == 'w');
        assert(key == seq!['h'] ==> one && kc == 'h');
    }
    if one && kc == 'x' {
        (match value { Some(v) => v, None => 0 }, c.1, c.2, c.3)
    } else if one && kc == 'y' {
        (c.0, match value { Some(v) => v, None => 0 }, c.2, c.3)
    } else if one && kc == 'w' {
        (c.0, c.1, match value { Some(v) => v, None => 1920 }, c.3)
    } else if one && kc == 'h' {
        (c.0, c.1, c.2, match value { Some(v) => v, None => 1080 })
    } else {
        c
    }
}

/// The capture rectangle (x, y, width, height) of a monitor source name such
/// as `Display 1|x:1920|y:0|w:2560|h:1440`.
pub fn parse_monitor_coords(source_name: &str) -> (r: (i32, i32, i32, i32))
    ensures
        r == monitor_coords(source_name@),
{
    let ghost f = |c: (i32, i32, i32, i32), param: Seq<char>| apply_capture_param(c, param);
    let n = source_name.unicode_len();
    let p = find_char(source_name, 0, '|');
    assert(source_name@.subrange(0, n as int) =~= source_name@);
    let mut c: (i32, i32, i32, i32) = (0, 0, 1920, 1080);
    if p == n {
        return c;
    }
    let mut start = p + 1;
    let mut i = p + 1;
    proof {
        assert(source_name@.subrange(p + 1, i as int) =~= Seq::<char>::empty());
    }
    while i < n
        invariant
            n == source_name@.len(),
            p < n,
            p + 1 <= start <= i <= n,
            ({
                let segs = split_on(source_name@.subrange(p + 1, i as int), '|');
                &&& segs.len() >= 1
                &&& segs.last() == source_name@.subrange(start as int, i as int)
                &&& segs.drop_last().fold_left(default_capture_rect(), f) == c
            }),
            f == (|c: (i32, i32, i32, i32), param: Seq<char>| apply_capture_param(c, param)),
        decreases n - i,
    {
        let ghost prev = split_on(source_name@.subrange(p + 1, i as int), '|');
        let ghost pre = source_name@.subrange(p + 1, (i + 1) as int);
        assert(pre.drop_last() =~= source_name@.subrange(p + 1, i as int));
        if source_name.get_char(i) == '|' {
            c = apply_capture_param_exec(c, source_name, start, i);
            start = i + 1;
            proof {
                let segs = split_on(pre, '|');
                assert(segs == prev.push(Seq::<char>::empty()));
                assert(segs.drop_last() =~= prev);
                assert(prev.drop_last().push(prev.last()) =~= prev);
                assert(source_name@.subrange(start as int, (i + 1) as int) =~= Seq::<char>::empty());
            }
        } else {
            proof {
                let segs = split_on(pre, '|');
                assert(segs == prev.update(prev.len() - 1, prev.last().push(pre.last())));
                assert(segs.drop_last() =~= prev.drop_last());
                assert(source_name@.subrange(start as int, (i + 1) as int) =~= source_name@.subrange(
                    start as int,
                    i as int,
                ).push(pre.last()));
            }
        }
        i = i + 1;
    }
    let r = apply_capture_param_exec(c, source_name, start, n);
    proof {
        let segs = split_on(source_name@.subrange(p + 1, n as int), '|');
        assert(segs.drop_last().push(segs.last()) =~= segs);
    }
    r
}

} // verus!
