use vstd::prelude::*;
use crate::chat::{
    ChatPlatform, ChatTimestamp, ChatUser, MessageMetadata, UnifiedChatMessage, new_message_id,
    plain_metadata, utc_now,
};
use crate::text::{
    contains_seq, contains_str, find_char, first_index_of, lemma_first_index_of,
    lemma_first_index_of_bound, lemma_first_index_of_hit, lemma_first_index_of_not_before,
    lowercase_of, owned, substring, to_lowercase,
};

verus! {

/// `s` without its leading run of `c` (what `trim_start_matches(c)` leaves).
pub open spec fn trim_start_char(s: Seq<char>, c: char) -> Seq<char>
    decreases s.len(),
{
    if s.len() > 0 && s[0] == c {
        trim_start_char(s.drop_first(), c)
    } else {
        s
    }
}

/// The author and text of an IRC chat line: a line that mentions `PRIVMSG`
/// and splits, at its first two spaces, into a prefix, a source and the rest;
/// the author is the source up to its first `!`, the text is the rest without
/// its leading colons. Other lines give nothing.
pub open spec fn privmsg_fields(line: Seq<char>) -> Option<(Seq<char>, Seq<char>)> {
    if !contains_seq(line, "PRIVMSG"@) {
        None
    } else {
        let p1 = first_index_of(line, ' ');
        if p1 >= line.len() {
            None
        } else {
            let rest = line.subrange(p1 + 1 as int, line.len() as int);
            let p2 = first_index_of(rest, ' ');
            if p2 >= rest.len() {
                None
            } else {
                let source = rest.subrange(0, p2 as int);
                let text = rest.subrange(p2 + 1 as int, rest.len() as int);
                Some(
                    (
                        source.subrange(0, first_index_of(source, '!') as int),
                        trim_start_char(text, ':'),
                    ),
                )
            }
        }
    }
}

proof fn lemma_trim_start_char(s: Seq<char>, c: char, i: int)
    requires
        0 <= i <= s.len(),
        forall|j: int| 0 <= j < i ==> s[j] == c,
        i == s.len() || s[i] != c,
    ensures
        trim_start_char(s, c) == s.subrange(i, s.len() as int),
    decreases i,
{
    if i > 0 {
        lemma_trim_start_char(s.drop_first(), c, i - 1);
        assert(s.drop_first().subrange(i - 1, s.drop_first().len() as int) =~= s.subrange(
            i,
            s.len() as int,
        ));
    } else {
        assert(s.subrange(0, s.len() as int) =~= s);
    }
}

/// Author and text of a `PRIVMSG` line, as `privmsg_fields` describes them.
pub fn parse_privmsg(line: &str) -> (r: Option<(String, String)>)
    ensures
        match privmsg_fields(line@) {
            Some((user, text)) => r matches Some((u, t)) && u@ == user && t@ == text,
            None => r is None,
        },
{
    if !contains_str(line, "PRIVMSG") {
        return None;
    }
    let n = line.unicode_len();
    let p1 = find_char(line, 0, ' ');
    assert(line@.subrange(0, n as int) =~= line@);
    if p1 >= n {
        return None;
    }
    let ghost rest = line@.subrange(p1 + 1, n as int);
    let p2 = find_char(line, p1 + 1, ' ');
    proof {
        lemma_first_index_of_bound(rest, ' ');
    }
    if p2 >= n {
        return None;
    }
    let ghost source = rest.subrange(0, p2 - p1 - 1);
    let bang = find_char(line, p1 + 1, '!');
    let user_end = if bang < p2 {
        bang
    } else {
        p2
    };
    proof {
        assert(source =~= line@.subrange(p1 + 1, p2 as int));
        let t = line@.subrange(p1 + 1, n as int);
        let k = user_end - p1 - 1;
        assert forall|j: int| 0 <= j < k implies source[j] != '!' by {
            lemma_first_index_of_not_before(t, '!', j);
        }
        if bang < p2 {
            lemma_first_index_of_hit(t, '!');
        }
        lemma_first_index_of(source, '!', k);
    }
    let user = substring(line, p1 + 1, user_end);
    let mut start = p2 + 1;
    while start < n && line.get_char(start) == ':'
        invariant
            n == line@.len(),
            p2 + 1 <= start <= n,
            forall|j: int| p2 + 1 <= j < start ==> line@[j] == ':',
        decreases n - start,
    {
        start = start + 1;
    }
    let text = substring(line, start, n);
    proof {
        let body = rest.subrange(p2 - p1, rest.len() as int);
        assert(body =~= line@.subrange(p2 + 1, n as int));
        lemma_trim_start_char(body, ':', start - p2 - 1);
        assert(body.subrange(start - p2 - 1, body.len() as int) =~= line@.subrange(
            start as int,
            n as int,
        ));
        assert(source.subrange(0, user_end - p1 - 1) =~= line@.subrange(p1 + 1, user_end as int));
    }
    Some((user, text))
}

/// The Twitch message of a parsed chat line, once its identifier, the time
/// and the lower-cased author are known.
pub fn twitch_chat_message(
    id: String,
    timestamp: ChatTimestamp,
    channel: &str,
    user: String,
    user_lower: String,
    content: String,
) -> (r: UnifiedChatMessage)
    ensures
        r@.id == id@,
        r@.platform == ChatPlatform::Twitch,
        r@.channel == channel@,
        r@.user.id == user_lower@,
        r@.user.username == user@,
        r@.user.display_name == user@,
        r@.user.color is None,
        r@.user.badges.len() == 0,
        r@.user.profile_image_url is None,
        r@.content == content@,
        r@.timestamp == timestamp,
        r@.metadata == plain_metadata(),
{
    let display = user.clone();
    let r = UnifiedChatMessage {
        id,
        platform: ChatPlatform::Twitch,
        channel: owned(channel),
        user: ChatUser {
            id: user_lower,
            username: user,
            display_name: display,
            color: None,
            badges: Vec::new(),
            profile_image_url: None,
        },
        content,
        timestamp,
        metadata: MessageMetadata::default(),
    };
    assert(r@.user.badges =~= Seq::<Seq<char>>::empty());
    r
}

/// The chat message of an IRC line of `channel`, if it is a `PRIVMSG`, with a
/// fresh identifier and the current time.
pub fn parse_irc_message(channel: &str, line: &str) -> (r: Option<UnifiedChatMessage>)
    ensures
        match privmsg_fields(line@) {
            Some((user, text)) => r matches Some(m) && m@.id.len() == 36
                && m@.platform == ChatPlatform::Twitch && m@.channel == channel@
                && m@.user.id == lowercase_of(user) && m@.user.username == user
                && m@.user.display_name == user && m@.user.color is None
                && m@.user.badges.len() == 0 && m@.user.profile_image_url is None
                && m@.content == text && m@.metadata == plain_metadata(),
            None => r is None,
        },
{
    match parse_privmsg(line) {
        Some((user, content)) => {
            let id = new_message_id();
            let lower = to_lowercase(user.as_str());
            let now = utc_now();
            Some(twitch_chat_message(id, now, channel, user, lower, content))
        },
        None => None,
    }
}

} // verus!
