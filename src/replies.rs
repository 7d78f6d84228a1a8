//! What the commands answer, from the values their outside calls gave.

use crate::store::{PrefixError, PrefixLookup};
use crate::text::decimal;
use rand::Rng;
use vstd::prelude::*;
use vstd::string::*;

verus! {

/// `a`, `b` and `c` one after the other.
fn join3(a: &str, b: &str, c: &str) -> (r: String)
    ensures
        r@ == a@ + b@ + c@,
{
    let mut s = String::from_str(a);
    s.append(b);
    s.append(c);
    s
}

/// The reply when an outside service failed.
pub fn try_again_later() -> (r: String)
    ensures
        r@ == "Something went wrong, please try again later."@,
{
    String::from_str("Something went wrong, please try again later.")
}

/// The reply when a lookup found nothing.
pub fn no_results() -> (r: String)
    ensures
        r@ == "No results found, sorry."@,
{
    String::from_str("No results found, sorry.")
}

/// The reply when a lookup was asked for nothing.
pub fn missing_term() -> (r: String)
    ensures
        r@ == "Give me a word to look up for."@,
{
    String::from_str("Give me a word to look up for.")
}

/// The notice for a command run without its required argument.
pub fn usage_notice() -> (r: String)
    ensures
        r@ == "This command needs an argument."@,
{
    String::from_str("This command needs an argument.")
}

/// The notice for a refused call, `retry_after` seconds before the window ends.
pub fn cooldown_notice(retry_after: u64) -> (r: String)
    ensures
        r@ == ":hourglass: | **Cooldown:** Try this again in "@ + crate::text::decimal_of(
            retry_after as nat,
        ) + " seconds."@,
{
    join3(":hourglass: | **Cooldown:** Try this again in ", decimal(retry_after).as_str(), " seconds.")
}

/// How a lookup over HTTP ended.
#[derive(Debug, Clone, Copy, PartialEq, Eq, Structural)]
pub enum LookupStatus {
    /// The service did not answer with status 200.
    TryLater,
    /// It answered, with no result.
    NoResults,
    /// It answered; the first result is shown.
    First,
}

/// How a lookup ended, from the HTTP status (`None`: the request or the
/// reading of its body failed) and the number of results.
pub fn lookup_status(status: Option<u16>, results: usize) -> (r: LookupStatus)
    ensures
        status != Some(200u16) ==> r == LookupStatus::TryLater,
        status == Some(200u16) && results == 0 ==> r == LookupStatus::NoResults,
        status == Some(200u16) && results > 0 ==> r == LookupStatus::First,
{
    match status {
        Some(200) => if results == 0 {
            LookupStatus::NoResults
        } else {
            LookupStatus::First
        },
        _ => LookupStatus::TryLater,
    }
}

/// The reply to a lookup asked for the term `term`, if nothing is to be
/// looked up: a blank term.
pub fn blank_term_reply(term: &str) -> (r: Option<String>)
    ensures
        crate::text::trim(term@).len() == 0 ==> (r matches Some(t) && t@
            == "Give me a word to look up for."@),
        crate::text::trim(term@).len() > 0 ==> r is None,
{
    if crate::text::trim_spaces(term).unicode_len() == 0 {
        Some(missing_term())
    } else {
        None
    }
}

/// The text reply for a lookup that shows no result, if it ended so.
pub fn lookup_failure_reply(s: LookupStatus) -> (r: Option<String>)
    ensures
        s == LookupStatus::TryLater ==> (r matches Some(t) && t@
            == "Something went wrong, please try again later."@),
        s == LookupStatus::NoResults ==> (r matches Some(t) && t@ == "No results found, sorry."@),
        s == LookupStatus::First ==> r is None,
{
    match s {
        LookupStatus::TryLater => Some(try_again_later()),
        LookupStatus::NoResults => Some(no_results()),
        LookupStatus::First => None,
    }
}

/// The answers of the magic 8-ball.
pub open spec fn eightball_answers() -> Seq<&'static str> {
    seq![
        "It is certain.",
        "It is decidedly so.",
        "Without a doubt.",
        "Yes definitely.",
        "You may rely on it.",
        "As I see it, yes.",
        "Most likely.",
        "Outlook good.",
        "Yes.",
        "Signs point to yes.",
        "Reply hazy, try again.",
        "Ask again later.",
        "Better not tell you now.",
        "Cannot predict now.",
        "Concentrate and ask again.",
        "Don't count on it.",
        "My reply is no.",
        "My sources say no.",
        "Outlook not so good.",
        "Very doubtful.",
    ]
}

/// The number of answers of the magic 8-ball.
pub const EIGHTBALL_ANSWERS: usize = 20;

/// The 8-ball's reply for the answer at `roll`.
pub fn eightball_reply(roll: usize) -> (r: String)
    requires
        roll < EIGHTBALL_ANSWERS,
    ensures
        r@ == ":8ball: **8ball:** "@ + eightball_answers()[roll as int]@,
{
    let answers = vec![
        "It is certain.",
        "It is decidedly so.",
        "Without a doubt.",
        "Yes definitely.",
        "You may rely on it.",
        "As I see it, yes.",
        "Most likely.",
        "Outlook good.",
        "Yes.",
        "Signs point to yes.",
        "Reply hazy, try again.",
        "Ask again later.",
        "Better not tell you now.",
        "Cannot predict now.",
        "Concentrate and ask again.",
        "Don't count on it.",
        "My reply is no.",
        "My sources say no.",
        "Outlook not so good.",
        "Very doubtful.",
    ];
    assert(answers@ == eightball_answers());
    let mut s = String::from_str(":8ball: **8ball:** ");
    s.append(answers[roll]);
    s
}

/// Relies on `rand::thread_rng` and `Rng::gen_range` over `0..n`, which
/// panics on an empty range: a number below `n`.
#[verifier::external_body]
fn random_below(n: usize) -> (r: usize)
    requires
        n > 0,
    ensures
        r < n,
{
    rand::thread_rng().gen_range(0..n)
}

/// The 8-ball's reply to a question, with an answer drawn at random.
pub fn eightball() -> (r: String)
    ensures
        exists|i: int|
            0 <= i < EIGHTBALL_ANSWERS && r@ == ":8ball: **8ball:** "@ + (#[trigger] eightball_answers()[i])@,
{
    eightball_reply(random_below(EIGHTBALL_ANSWERS))
}

/// What the `prefix` command does with its argument.
#[derive(Debug, Clone, PartialEq, Eq)]
pub enum PrefixAction {
    /// No argument: show the guild's prefix.
    Show,
    /// Store this prefix, already without surrounding white space.
    Store(String),
    /// The argument is empty once trimmed: refuse it.
    Refuse,
}

/// What the `prefix` command does, given its first argument.
pub fn prefix_action(arg: Option<String>) -> (r: PrefixAction)
    ensures
        arg is None ==> r is Show,
        arg matches Some(a) ==> (crate::text::trim(a@).len() == 0 <==> r is Refuse),
        arg matches Some(a) ==> (r matches PrefixAction::Store(p) ==> p@ == crate::text::trim(a@)),
        arg matches Some(a) ==> (crate::text::trim(a@).len() > 0 ==> r is Store),
{
    match arg {
        None => PrefixAction::Show,
        Some(a) => match crate::store::normalize_prefix(a.as_str()) {
            Ok(p) => PrefixAction::Store(p),
            Err(PrefixError::Empty) => PrefixAction::Refuse,
        },
    }
}

/// The reply that shows a guild's prefix.
pub fn current_prefix_reply(prefix: &str) -> (r: String)
    ensures
        r@ == "The current guild prefix is: `"@ + prefix@ + "`"@,
{
    join3("The current guild prefix is: `", prefix, "`")
}

/// The reply once a prefix was stored.
pub fn updated_prefix_reply(prefix: &str) -> (r: String)
    ensures
        r@ == "Updated prefix to: `"@ + prefix@ + "`"@,
{
    join3("Updated prefix to: `", prefix, "`")
}

/// The reply to an empty prefix.
pub fn empty_prefix_reply() -> (r: String)
    ensures
        r@ == "The prefix cannot be empty."@,
{
    String::from_str("The prefix cannot be empty.")
}

/// The reply when the prefix could not be stored.
pub fn prefix_not_saved_reply() -> (r: String)
    ensures
        r@ == "Couldn't update the prefix, please try again later."@,
{
    String::from_str("Couldn't update the prefix, please try again later.")
}

/// The `prefix` command's reply where the guild's prefix is read from a
/// lookup of the backing store; a failed read shows the default.
pub fn show_prefix_reply(lookup: PrefixLookup, default: &str) -> (r: String)
    ensures
        r@ == "The current guild prefix is: `"@ + crate::store::lookup_prefix(lookup, default@) + "`"@,
{
    let p = crate::store::prefix_from_lookup(lookup, default);
    current_prefix_reply(p.as_str())
}

/// Bytes in a mebibyte.
pub const MIB: u64 = 1048576;

/// Whole mebibytes in `bytes`.
pub fn memory_mib(bytes: u64) -> (r: u64)
    ensures
        r == bytes / MIB,
{
    bytes / MIB
}

/// The shard line of `ping` and `about`: shard `shard_id` counted from one, out of `total`.
pub fn shard_of(shard_id: u64, total: u64) -> (r: String)
    requires
        shard_id < u64::MAX,
    ensures
        r@ == crate::text::decimal_of(shard_id as nat + 1) + "/"@ + crate::text::decimal_of(total as nat),
{
    let mut s = decimal(shard_id + 1);
    s.append("/");
    s.append(decimal(total).as_str());
    s
}

/// The latency shown by `ping`: milliseconds, or `?ms` where unknown.
pub fn latency_text(millis: Option<u64>) -> (r: String)
    ensures
        millis matches Some(ms) ==> r@ == crate::text::decimal_of(ms as nat) + "ms"@,
        millis is None ==> r@ == "?ms"@,
{
    match millis {
        Some(ms) => {
            let mut s = decimal(ms);
            s.append("ms");
            s
        },
        None => String::from_str("?ms"),
    }
}

/// The body of `ping`'s reply.
pub fn ping_line(shard_id: u64, latency: &str) -> (r: String)
    requires
        shard_id < u64::MAX,
    ensures
        r@ == "**Shard "@ + crate::text::decimal_of(shard_id as nat + 1) + "**: "@ + latency@,
{
    let mut s = String::from_str("**Shard ");
    s.append(decimal(shard_id + 1).as_str());
    s.append("**: ");
    s.append(latency);
    s
}

/// The vote line of a dictionary definition.
pub fn votes_line(up: u32, down: u32) -> (r: String)
    ensures
        r@ == ":thumbsup: "@ + crate::text::decimal_of(up as nat) + " :thumbsdown: "@
            + crate::text::decimal_of(down as nat),
{
    let mut s = String::from_str(":thumbsup: ");
    s.append(decimal(up as u64).as_str());
    s.append(" :thumbsdown: ");
    s.append(decimal(down as u64).as_str());
    s
}

} // verus!
