use vstd::prelude::*;
use crate::text::{owned, str_eq};

verus! {

/// Where a stream is sent.
#[derive(Debug)]
pub struct DestinationConfig {
    pub name: String,
    pub platform: String,
    pub server: String,
    pub stream_key: String,
    pub enabled: bool,
    pub bandwidth_limit: Option<u32>,
}

/// Mathematical value of a destination.
pub struct DestinationView {
    pub name: Seq<char>,
    pub platform: Seq<char>,
    pub server: Seq<char>,
    pub stream_key: Seq<char>,
    pub enabled: bool,
    pub bandwidth_limit: Option<u32>,
}

impl View for DestinationConfig {
    type V = DestinationView;

    open spec fn view(&self) -> DestinationView {
        DestinationView {
            name: self.name@,
            platform: self.platform@,
            server: self.server@,
            stream_key: self.stream_key@,
            enabled: self.enabled,
            bandwidth_limit: self.bandwidth_limit,
        }
    }
}

impl Clone for DestinationConfig {
    fn clone(&self) -> (r: Self)
        ensures
            r@ == self@,
    {
        DestinationConfig {
            name: self.name.clone(),
            platform: self.platform.clone(),
            server: self.server.clone(),
            stream_key: self.stream_key.clone(),
            enabled: self.enabled,
            bandwidth_limit: self.bandwidth_limit,
        }
    }
}

/// The views of a list of destinations.
pub open spec fn destination_views(s: Seq<DestinationConfig>) -> Seq<DestinationView> {
    s.map_values(|d: DestinationConfig| d@)
}

/// The destinations of `s` not named `name`, in order.
pub open spec fn without_name(s: Seq<DestinationView>, name: Seq<char>) -> Seq<DestinationView> {
    s.filter(|d: DestinationView| d.name != name)
}

/// The first destination of `s` named `name`.
pub open spec fn first_named(s: Seq<DestinationView>, name: Seq<char>) -> Option<DestinationView>
    decreases s.len(),
{
    if s.len() == 0 {
        None
    } else if s[0].name == name {
        Some(s[0])
    } else {
        first_named(s.drop_first(), name)
    }
}

/// The default Twitch destination (`rtmp://live.twitch.tv/app` unless another
/// server is given).
pub open spec fn twitch_default(server: Option<Seq<char>>, key: Seq<char>) -> DestinationView {
    DestinationView {
        name: "Twitch"@,
        platform: "twitch"@,
        server: match server {
            Some(s) => s,
            None => "rtmp://live.twitch.tv/app"@,
        },
        stream_key: key,
        enabled: true,
        bandwidth_limit: Some(6000),
    }
}

/// The default YouTube destination.
pub open spec fn youtube_default(key: Seq<char>) -> DestinationView {
    DestinationView {
        name: "YouTube"@,
        platform: "youtube"@,
        server: "rtmp://a.rtmp.youtube.com/live2"@,
        stream_key: key,
        enabled: true,
        bandwidth_limit: Some(12000),
    }
}

/// The default Facebook destination.
pub open spec fn facebook_default(key: Seq<char>) -> DestinationView {
    DestinationView {
        name: "Facebook"@,
        platform: "facebook"@,
        server: "rtmps://live-api-s.facebook.com:443/rtmp"@,
        stream_key: key,
        enabled: true,
        bandwidth_limit: Some(6000),
    }
}

/// The streaming destinations configured, in the order they were added.
pub struct StreamingDestinations {
    destinations: Vec<DestinationConfig>,
}

impl View for StreamingDestinations {
    type V = Seq<DestinationView>;

    closed spec fn view(&self) -> Seq<DestinationView> {
        destination_views(self.destinations@)
    }
}

impl Default for StreamingDestinations {
    fn default() -> (r: StreamingDestinations)
        ensures
            r@ == Seq::<DestinationView>::empty(),
    {
        StreamingDestinations::new()
    }
}

proof fn lemma_first_named_skip(s: Seq<DestinationView>, name: Seq<char>, i: int)
    requires
        0 <= i <= s.len(),
        forall|j: int| 0 <= j < i ==> s[j].name != name,
    ensures
        first_named(s, name) == first_named(s.subrange(i, s.len() as int), name),
    decreases i,
{
    if i > 0 {
        lemma_first_named_skip(s.drop_first(), name, i - 1);
        assert(s.drop_first().subrange(i - 1, s.drop_first().len() as int) =~= s.subrange(
            i,
            s.len() as int,
        ));
    } else {
        assert(s.subrange(0, s.len() as int) =~= s);
    }
}

impl StreamingDestinations {
    /// No destinations.
    pub fn new() -> (r: StreamingDestinations)
        ensures
            r@ == Seq::<DestinationView>::empty(),
    {
        let r = StreamingDestinations { destinations: Vec::new() };
        assert(r@ =~= Seq::<DestinationView>::empty());
        r
    }

    /// Adds a destination at the end.
    pub fn add(&mut self, config: DestinationConfig)
        ensures
            final(self)@ == old(self)@.push(config@),
    {
        self.destinations.push(config);
        assert(self@ =~= old(self)@.push(config@));
    }

    /// Removes every destination named `name`, keeping the others in order.
    pub fn remove(&mut self, name: &str)
        ensures
            final(self)@ == without_name(old(self)@, name@),
    {
        let ghost all = self@;
        let mut kept: Vec<DestinationConfig> = Vec::new();
        let mut rest: Vec<DestinationConfig> = Vec::new();
        std::mem::swap(&mut rest, &mut self.destinations);
        let ghost orig = rest@;
        assert(destination_views(orig) == all);
        let n = rest.len();
        let mut i: usize = 0;
        while i < n
            invariant
                n == orig.len(),
                i <= n,
                rest@ == orig.subrange(i as int, n as int),
                all == destination_views(orig),
                destination_views(kept@) == without_name(all.subrange(0, i as int), name@),
            decreases n - i,
        {
            let d = rest.remove(0);
            assert(d == orig[i as int]);
            assert(rest@ =~= orig.subrange(i + 1, n as int));
            proof {
                reveal(Seq::filter);
                assert(all.subrange(0, i + 1).drop_last() =~= all.subrange(0, i as int));
                assert(all.subrange(0, i + 1).last() == d@);
            }
            if !str_eq(d.name.as_str(), name) {
                kept.push(d);
                assert(destination_views(kept@) =~= without_name(all.subrange(0, i + 1), name@));
            } else {
                assert(destination_views(kept@) =~= without_name(all.subrange(0, i + 1), name@));
            }
            i = i + 1;
        }
        assert(all.subrange(0, n as int) =~= all);
        self.destinations = kept;
    }

    /// The first destination named `name`.
    pub fn get(&self, name: &str) -> (r: Option<&DestinationConfig>)
        ensures
            match first_named(self@, name@) {
                Some(d) => r matches Some(x) && x@ == d,
                None => r is None,
            },
    {
        let n = self.destinations.len();
        let mut i: usize = 0;
        while i < n
            invariant
                n == self.destinations@.len(),
                i <= n,
                forall|j: int| 0 <= j < i ==> (#[trigger] self@[j]).name != name@,
            decreases n - i,
        {
            if str_eq(self.destinations[i].name.as_str(), name) {
                proof {
                    lemma_first_named_skip(self@, name@, i as int);
                    assert(self@.subrange(i as int, n as int)[0] == self@[i as int]);
                }
                return Some(&self.destinations[i]);
            }
            i = i + 1;
        }
        proof {
            lemma_first_named_skip(self@, name@, n as int);
        }
        None
    }

    /// All destinations, in the order they were added.
    pub fn list(&self) -> (r: &[DestinationConfig])
        ensures
            destination_views(r@) == self@,
    {
        self.destinations.as_slice()
    }

    /// The Twitch destination for a stream key, on the given server or
    /// Twitch's default ingest.
    pub fn get_twitch_default(server_override: Option<&str>, key: String) -> (r: DestinationConfig)
        ensures
            r@ == twitch_default(
                match server_override {
                    Some(s) => Some(s@),
                    None => None,
                },
                key@,
            ),
    {
        let server = match server_override {
            Some(s) => owned(s),
            None => owned("rtmp://live.twitch.tv/app"),
        };
        DestinationConfig {
            name: owned("Twitch"),
            platform: owned("twitch"),
            server,
            stream_key: key,
            enabled: true,
            bandwidth_limit: Some(6000),
        }
    }

    /// The YouTube destination for a stream key.
    pub fn get_youtube_default(key: String) -> (r: DestinationConfig)
        ensures
            r@ == youtube_default(key@),
    {
        DestinationConfig {
            name: owned("YouTube"),
            platform: owned("youtube"),
            server: owned("rtmp://a.rtmp.youtube.com/live2"),
            stream_key: key,
            enabled: true,
            bandwidth_limit: Some(12000),
        }
    }

    /// The Facebook destination for a stream key.
    pub fn get_facebook_default(key: String) -> (r: DestinationConfig)
        ensures
            r@ == facebook_default(key@),
    {
        DestinationConfig {
            name: owned("Facebook"),
            platform: owned("facebook"),
            server: owned("rtmps://live-api-s.facebook.com:443/rtmp"),
            stream_key: key,
            enabled: true,
            bandwidth_limit: Some(6000),
        }
    }
}

/// After removing a name, no destination of that name is found, and every
/// other destination is kept.
pub proof fn lemma_removed_name_absent(s: Seq<DestinationView>, name: Seq<char>)
    ensures
        first_named(without_name(s, name), name) is None,
        forall|d: DestinationView| s.contains(d) && d.name != name ==> #[trigger] without_name(
            s,
            name,
        ).contains(d),
{
    let f = without_name(s, name);
    s.filter_lemma(|d: DestinationView| d.name != name);
    lemma_no_match_absent(f, name);
    assert forall|d: DestinationView| s.contains(d) && d.name != name implies #[trigger] without_name(
        s,
        name,
    ).contains(d) by {
        s.lemma_filter_contains_rev(|d: DestinationView| d.name != name, d);
    }
}

proof fn lemma_no_match_absent(s: Seq<DestinationView>, name: Seq<char>)
    requires
        forall|j: int| 0 <= j < s.len() ==> s[j].name != name,
    ensures
        first_named(s, name) is None,
    decreases s.len(),
{
    if s.len() > 0 {
        lemma_no_match_absent(s.drop_first(), name);
    }
}

/// A destination just added is found under its name unless an earlier one
/// has that name.
pub proof fn lemma_added_destination_found(s: Seq<DestinationView>, d: DestinationView)
    requires
        first_named(s, d.name) is None,
    ensures
        first_named(s.push(d), d.name) == Some(d),
    decreases s.len(),
{
    if s.len() > 0 {
        assert(s.push(d).drop_first() =~= s.drop_first().push(d));
        lemma_added_destination_found(s.drop_first(), d);
    }
}

/// Output `i` was attempted and did not report success.
pub open spec fn failed_at(attempted: Seq<bool>, results: Seq<Option<bool>>, i: int) -> bool {
    attempted[i] && results[i] != Some(true)
}

/// The indices below `n` of the outputs that failed, in increasing order.
pub open spec fn failures_upto(attempted: Seq<bool>, results: Seq<Option<bool>>, n: int) -> Seq<usize>
    decreases n,
{
    if n <= 0 {
        Seq::empty()
    } else {
        let prev = failures_upto(attempted, results, n - 1);
        if failed_at(attempted, results, n - 1) {
            prev.push((n - 1) as usize)
        } else {
            prev
        }
    }
}

/// Of the outputs addressed in turn (`attempted[i]` tells whether output `i`
/// was tried, `results[i]` whether its attempt succeeded), the failed ones:
/// `None` when every attempt succeeded, otherwise their indices in order. One
/// failure does not stop the others from being tried.
pub fn collect_failures(attempted: &Vec<bool>, results: &Vec<Option<bool>>) -> (r: Option<Vec<usize>>)
    requires
        attempted.len() == results.len(),
    ensures
        r is None <==> failures_upto(attempted@, results@, attempted@.len() as int).len() == 0,
        r matches Some(v) ==> v@ == failures_upto(attempted@, results@, attempted@.len() as int),
{
    let mut failed: Vec<usize> = Vec::new();
    let n = attempted.len();
    let mut i: usize = 0;
    while i < n
        invariant
            n == attempted@.len(),
            n == results@.len(),
            i <= n,
            failed@ == failures_upto(attempted@, results@, i as int),
        decreases n - i,
    {
        let ok = match results[i] {
            Some(true) => true,
            _ => false,
        };
        if attempted[i] && !ok {
            failed.push(i);
        }
        i = i + 1;
    }
    if failed.len() == 0 {
        None
    } else {
        Some(failed)
    }
}

} // verus!
