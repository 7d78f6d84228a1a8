//! Prefix resolution: where in a message the command begins, given the
//! guild's prefix and the bot's own mention.

use crate::text::{is_space, lower_of, lowercase, skip_leading_space, space, trim_start};
use vstd::prelude::*;
use vstd::string::*;

verus! {

/// Where a message was sent.
#[derive(Debug, Clone, Copy, PartialEq, Eq, Structural)]
pub enum Origin {
    Guild(u64),
    Direct,
}

/// How commands sent as direct messages are treated.
#[derive(Debug, Clone, Copy, PartialEq, Eq, Structural)]
pub enum DirectPolicy {
    /// No prefix applies; a mention of the bot still starts a command.
    MentionOnly,
    /// Direct messages never start a command.
    Refuse,
}

/// The prefix to strip from a message of `origin`, where one applies;
/// `guild_prefix` is the prefix stored for the guild.
pub open spec fn effective_prefix(origin: Origin, policy: DirectPolicy, guild_prefix: Seq<char>) -> Option<
    Seq<char>,
> {
    match origin {
        Origin::Guild(_) => Some(guild_prefix),
        Origin::Direct => match policy {
            DirectPolicy::MentionOnly => Some(Seq::<char>::empty()),
            DirectPolicy::Refuse => None,
        },
    }
}

/// Whether a mention of the bot counts as a prefix in a message of `origin`.
pub open spec fn mention_allowed(origin: Origin, policy: DirectPolicy) -> bool {
    origin is Guild || policy == DirectPolicy::MentionOnly
}

/// The prefix that applies to a message of `origin`.
pub fn resolve_prefix(origin: Origin, policy: DirectPolicy, guild_prefix: &str) -> (r: Option<String>)
    ensures
        match effective_prefix(origin, policy, guild_prefix@) {
            Some(p) => r matches Some(s) && s@ == p,
            None => r is None,
        },
{
    match origin {
        Origin::Guild(_) => Some(String::from_str(guild_prefix)),
        Origin::Direct => match policy {
            DirectPolicy::MentionOnly => Some(String::new()),
            DirectPolicy::Refuse => None,
        },
    }
}

/// Whether `t` holds `p` from character `at` on.
pub open spec fn holds_at(t: Seq<char>, at: int, p: Seq<char>) -> bool {
    0 <= at && at + p.len() <= t.len() && t.subrange(at, at + p.len()) == p
}

/// The length of the mention of the account `id` (`<@id>` or `<@!id>`)
/// that `t` starts with, if it starts with one.
pub open spec fn mention_len(t: Seq<char>, id: Seq<char>) -> Option<int> {
    let k: int = if t.len() > 2 && t[2] == '!' { 3 } else { 2 };
    if t.len() >= 2 && t[0] == '<' && t[1] == '@' && holds_at(t, k, id) && k + id.len() < t.len()
        && t[k + id.len()] == '>' {
        Some(k + id.len() + 1)
    } else {
        None
    }
}

/// Whether, ignoring case, `t` starts with the non-empty prefix `p`.
pub open spec fn starts_with_prefix(t: Seq<char>, p: Seq<char>) -> bool {
    0 < p.len() <= t.len() && lower_of(t.subrange(0, p.len() as int)) == lower_of(p)
}

/// How many characters of `t` a prefix covers: the bot's mention first,
/// else the prefix `p`; `None` where neither starts `t`.
pub open spec fn prefix_len(t: Seq<char>, p: Option<Seq<char>>, mention: Option<Seq<char>>) -> Option<
    int,
> {
    let by_mention = match mention {
        Some(id) => mention_len(t, id),
        None => None,
    };
    match by_mention {
        Some(n) => Some(n),
        None => match p {
            Some(p) => if starts_with_prefix(t, p) {
                Some(p.len() as int)
            } else {
                None
            },
            None => None,
        },
    }
}

fn holds_at_exec(t: &str, at: usize, p: &str) -> (r: bool)
    requires
        at <= t@.len(),
    ensures
        r == holds_at(t@, at as int, p@),
{
    let n = t.unicode_len();
    let m = p.unicode_len();
    if m > n - at {
        return false;
    }
    let mut i: usize = 0;
    while i < m
        invariant
            n == t@.len(),
            m == p@.len(),
            at + m <= n,
            i <= m,
            forall|k: int| 0 <= k < i ==> t@[at + k] == p@[k],
        decreases m - i,
    {
        if t.get_char(at + i) != p.get_char(i) {
            proof {
                assert(t@.subrange(at as int, at + m)[i as int] != p@[i as int]);
            }
            return false;
        }
        i = i + 1;
    }
    proof {
        assert(t@.subrange(at as int, at + m) =~= p@);
    }
    true
}

/// The length of the mention of the account `id` that `t` starts with.
pub fn match_mention(t: &str, id: &str) -> (r: Option<usize>)
    ensures
        match mention_len(t@, id@) {
            Some(n) => r matches Some(k) && k == n,
            None => r is None,
        },
{
    let n = t.unicode_len();
    if n < 2 || t.get_char(0) != '<' || t.get_char(1) != '@' {
        return None;
    }
    let k: usize = if n > 2 && t.get_char(2) == '!' { 3 } else { 2 };
    if !holds_at_exec(t, k, id) {
        return None;
    }
    let m = id.unicode_len();
    if k + m < n && t.get_char(k + m) == '>' {
        Some(k + m + 1)
    } else {
        None
    }
}

/// Whether, ignoring case, `t` starts with the non-empty prefix `p`.
pub fn match_prefix(t: &str, p: &str) -> (r: bool)
    ensures
        r == starts_with_prefix(t@, p@),
{
    let n = t.unicode_len();
    let m = p.unicode_len();
    if m == 0 || m > n {
        return false;
    }
    let head = lowercase(t.substring_char(0, m));
    let want = lowercase(p);
    head == want
}

/// The characters of an optional string.
pub open spec fn opt_view(o: Option<&str>) -> Option<Seq<char>> {
    match o {
        Some(s) => Some(s@),
        None => None,
    }
}

/// How many characters of `t` the prefix covers: the bot's mention
/// (`mention`, the account's id in decimal) first, else `p`.
pub fn strip_prefix_len(t: &str, p: Option<&str>, mention: Option<&str>) -> (r: Option<usize>)
    ensures
        match prefix_len(t@, opt_view(p), opt_view(mention)) {
            Some(n) => r matches Some(k) && k == n,
            None => r is None,
        },
{
    if let Some(id) = mention {
        if let Some(n) = match_mention(t, id) {
            return Some(n);
        }
    }
    match p {
        Some(p) => {
            if match_prefix(t, p) {
                Some(p.unicode_len())
            } else {
                None
            }
        },
        None => None,
    }
}

/// The number of characters before the first white space of `s`.
pub open spec fn word_len(s: Seq<char>) -> int
    decreases s.len(),
{
    if s.len() == 0 || is_space(s[0]) {
        0
    } else {
        1 + word_len(s.drop_first())
    }
}

proof fn lemma_word_len(s: Seq<char>, i: int)
    requires
        0 <= i <= s.len(),
        forall|k: int| 0 <= k < i ==> !is_space(#[trigger] s[k]),
        i == s.len() || is_space(s[i]),
    ensures
        word_len(s) == i,
    decreases i,
{
    if i > 0 {
        let t = s.drop_first();
        assert forall|k: int| 0 <= k < i - 1 implies !is_space(#[trigger] t[k]) by {
            assert(t[k] == s[k + 1]);
        }
        lemma_word_len(t, i - 1);
    }
}

/// The first word of `s` and what follows it, without leading white space.
pub fn split_word(s: &str) -> (r: (&str, &str))
    ensures
        r.0@ == s@.subrange(0, word_len(s@)),
        r.1@ == trim_start(s@.subrange(word_len(s@), s@.len() as int)),
{
    let n = s.unicode_len();
    let mut i: usize = 0;
    while i < n && !space(s.get_char(i))
        invariant
            n == s@.len(),
            i <= n,
            forall|k: int| 0 <= k < i ==> !is_space(#[trigger] s@[k]),
        decreases n - i,
    {
        i = i + 1;
    }
    proof {
        lemma_word_len(s@, i as int);
    }
    (s.substring_char(0, i), skip_leading_space(s, i))
}

} // verus!
