//! The command table and the dispatcher, which turns one incoming message
//! into at most one command invocation.

use crate::ratelimit::{step, window_of, Bucket, RateDecision, RateLimiter};
use crate::resolver::{
    effective_prefix, mention_allowed, prefix_len, resolve_prefix, split_word, strip_prefix_len, word_len,
    DirectPolicy, Origin,
};
use crate::text::{lower_of, lowercase, skip_leading_space, trim, trim_spaces, trim_start};
use serenity::framework::standard::{Args, Delimiter};
use vstd::prelude::*;
use vstd::string::*;

verus! {

/// The commands of the bot.
#[derive(Debug, Clone, Copy, PartialEq, Eq, Structural)]
pub enum CommandId {
    Ping,
    About,
    Cat,
    EightBall,
    Urban,
    Grayscale,
    Prefix,
    Help,
}

/// What a command takes after its name.
#[derive(Debug, Clone, Copy, PartialEq, Eq, Structural)]
pub enum ArgShape {
    /// Nothing; any text is ignored.
    Nothing,
    /// One argument, which may be quoted to hold spaces.
    Quoted,
    /// The rest of the message.
    Rest,
}

/// One entry of the command table.
pub struct CommandSpec {
    pub id: CommandId,
    /// The canonical name.
    pub name: String,
    /// Other names the command answers to.
    pub aliases: Vec<String>,
    pub shape: ArgShape,
    /// Whether at least one argument is required.
    pub needs_arg: bool,
    /// Whether the command is subject to the rate limiter.
    pub rate_limited: bool,
    /// Whether the command only runs in guilds.
    pub guild_only: bool,
}

/// Whether `c` answers to the lower-cased name `key`, ignoring case.
pub open spec fn answers_to(c: CommandSpec, key: Seq<char>) -> bool {
    lower_of(c.name@) == key || exists|j: int|
        0 <= j < c.aliases@.len() && lower_of(#[trigger] c.aliases@[j]@) == key
}

/// The first command from index `i` on that answers to `key`.
pub open spec fn find_from(cmds: Seq<CommandSpec>, key: Seq<char>, i: int) -> Option<int>
    decreases cmds.len() - i,
{
    if i < 0 || i >= cmds.len() {
        None
    } else if answers_to(cmds[i], key) {
        Some(i)
    } else {
        find_from(cmds, key, i + 1)
    }
}

proof fn lemma_find_from(cmds: Seq<CommandSpec>, key: Seq<char>, i: int)
    ensures
        find_from(cmds, key, i) matches Some(j) ==> 0 <= i <= j < cmds.len() && answers_to(
            cmds[j],
            key,
        ),
    decreases cmds.len() - i,
{
    if 0 <= i < cmds.len() && !answers_to(cmds[i], key) {
        lemma_find_from(cmds, key, i + 1);
    }
}

/// The first command that answers to `key`.
pub open spec fn find_command(cmds: Seq<CommandSpec>, key: Seq<char>) -> Option<int> {
    find_from(cmds, key, 0)
}

/// The command table, fixed once built.
pub struct Registry {
    pub commands: Vec<CommandSpec>,
}

fn command(
    id: CommandId,
    name: &str,
    aliases: Vec<String>,
    shape: ArgShape,
    needs_arg: bool,
    rate_limited: bool,
    guild_only: bool,
) -> (r: CommandSpec)
    ensures
        r.id == id && r.name@ == name@ && r.aliases@ == aliases@ && r.shape == shape && r.needs_arg
            == needs_arg && r.rate_limited == rate_limited && r.guild_only == guild_only,
{
    CommandSpec { id, name: String::from_str(name), aliases, shape, needs_arg, rate_limited, guild_only }
}

impl Registry {
    /// The bot's commands: `ping`, `about`, `cat`, `eightball`, `urban`,
    /// `grayscale`, `prefix` and `help`, with their aliases.
    pub fn standard() -> (r: Registry)
        ensures
            r.commands@.len() == 8,
            r.commands@[0].id == CommandId::Ping && r.commands@[0].name@ == "ping"@,
            r.commands@[1].id == CommandId::About && r.commands@[1].name@ == "about"@,
            r.commands@[2].id == CommandId::Cat && r.commands@[2].name@ == "cat"@,
            r.commands@[3].id == CommandId::EightBall && r.commands@[3].name@ == "eightball"@,
            r.commands@[4].id == CommandId::Urban && r.commands@[4].name@ == "urban"@,
            r.commands@[5].id == CommandId::Grayscale && r.commands@[5].name@ == "grayscale"@,
            r.commands@[6].id == CommandId::Prefix && r.commands@[6].name@ == "prefix"@,
            r.commands@[7].id == CommandId::Help && r.commands@[7].name@ == "help"@,
            forall|i: int|
                0 <= i < 8 ==> (#[trigger] r.commands@[i]).rate_limited == (2 <= i <= 5),
            forall|i: int| 0 <= i < 8 ==> (#[trigger] r.commands@[i]).guild_only == (i == 6),
            forall|i: int| 0 <= i < 8 ==> (#[trigger] r.commands@[i]).needs_arg == (i == 3),
            r.commands@[1].aliases@.len() == 2 && r.commands@[1].aliases@[0]@ == "statistics"@
                && r.commands@[1].aliases@[1]@ == "stats"@,
            r.commands@[3].aliases@.len() == 2 && r.commands@[3].aliases@[0]@ == "8ball"@
                && r.commands@[3].aliases@[1]@ == "8b"@,
            r.commands@[5].aliases@.len() == 3 && r.commands@[5].aliases@[0]@ == "gray"@
                && r.commands@[5].aliases@[1]@ == "grey"@ && r.commands@[5].aliases@[2]@ == "greyscale"@,
            forall|i: int| 0 <= i < 8 && i != 1 && i != 3 && i != 5 ==> (#[trigger] r.commands@[i]).aliases@.len() == 0,
            forall|i: int| 0 <= i < 8 ==> (#[trigger] r.commands@[i]).shape == (if i == 6 {
                ArgShape::Quoted
            } else if i == 3 || i == 4 || i == 5 || i == 7 {
                ArgShape::Rest
            } else {
                ArgShape::Nothing
            }),
    {
        let commands = vec![
            command(CommandId::Ping, "ping", Vec::new(), ArgShape::Nothing, false, false, false),
            command(
                CommandId::About,
                "about",
                vec![String::from_str("statistics"), String::from_str("stats")],
                ArgShape::Nothing,
                false,
                false,
                false,
            ),
            command(CommandId::Cat, "cat", Vec::new(), ArgShape::Nothing, false, true, false),
            command(
                CommandId::EightBall,
                "eightball",
                vec![String::from_str("8ball"), String::from_str("8b")],
                ArgShape::Rest,
                true,
                true,
                false,
            ),
            command(CommandId::Urban, "urban", Vec::new(), ArgShape::Rest, false, true, false),
            command(
                CommandId::Grayscale,
                "grayscale",
                vec![
                    String::from_str("gray"),
                    String::from_str("grey"),
                    String::from_str("greyscale"),
                ],
                ArgShape::Rest,
                false,
                true,
                false,
            ),
            command(CommandId::Prefix, "prefix", Vec::new(), ArgShape::Quoted, false, false, true),
            command(CommandId::Help, "help", Vec::new(), ArgShape::Rest, false, false, false),
        ];
        Registry { commands }
    }

    /// Whether the command at `i` answers to `key`.
    fn answers(&self, i: usize, key: &String) -> (r: bool)
        requires
            i < self.commands@.len(),
        ensures
            r == answers_to(self.commands@[i as int], key@),
    {
        let c = &self.commands[i];
        if lowercase(c.name.as_str()) == *key {
            return true;
        }
        let mut j: usize = 0;
        while j < c.aliases.len()
            invariant
                i < self.commands@.len(),
                *c == self.commands@[i as int],
                j <= c.aliases@.len(),
                forall|k: int| 0 <= k < j ==> lower_of(#[trigger] c.aliases@[k]@) != key@,
            decreases c.aliases@.len() - j,
        {
            if lowercase(c.aliases[j].as_str()) == *key {
                return true;
            }
            j = j + 1;
        }
        false
    }

    /// The index of the first command that answers to `name`, ignoring case.
    pub fn lookup(&self, name: &str) -> (r: Option<usize>)
        ensures
            match find_command(self.commands@, lower_of(name@)) {
                Some(i) => r matches Some(k) && k == i,
                None => r is None,
            },
    {
        let key = lowercase(name);
        let mut i: usize = 0;
        while i < self.commands.len()
            invariant
                i <= self.commands@.len(),
                key@ == lower_of(name@),
                find_command(self.commands@, key@) == find_from(self.commands@, key@, i as int),
            decreases self.commands@.len() - i,
        {
            if self.answers(i, &key) {
                return Some(i);
            }
            i = i + 1;
        }
        None
    }
}

/// The first argument of `s`, split at spaces, with surrounding quotes
/// removed, as serenity's argument parser reads it.
pub uninterp spec fn quoted_arg_of(s: Seq<char>) -> Option<Seq<char>>;

/// Relies on serenity's `Args::new` (split at `' '`) and
/// `Args::single_quoted::<String>`: the first argument without its quotes,
/// which is missing where `s` is empty.
#[verifier::external_body]
fn first_quoted_arg(s: &str) -> (r: Option<String>)
    ensures
        match r {
            Some(a) => quoted_arg_of(s@) == Some(a@),
            None => quoted_arg_of(s@) is None,
        },
        s@.len() == 0 ==> r is None,
{
    let mut args = Args::new(s, &[Delimiter::Single(' ')]);
    args.single_quoted::<String>().ok()
}

/// The parsed arguments of an invocation.
#[derive(Debug)]
pub enum Arguments {
    Nothing,
    /// The first argument, unquoted, if there is one.
    Token(Option<String>),
    /// The rest of the message, without surrounding white space.
    Text(String),
}

/// Whether `a` is what a command of shape `shape` gets from `rest`.
pub open spec fn parsed_as(shape: ArgShape, rest: Seq<char>, a: Arguments) -> bool {
    match shape {
        ArgShape::Nothing => a is Nothing,
        ArgShape::Quoted => match a {
            Arguments::Token(Some(t)) => quoted_arg_of(rest) == Some(t@) && rest.len() > 0,
            Arguments::Token(None) => quoted_arg_of(rest) is None,
            _ => false,
        },
        ArgShape::Rest => a matches Arguments::Text(t) && t@ == trim(rest),
    }
}

/// Parses `rest` as a command of shape `shape` takes it.
pub fn parse_arguments(shape: ArgShape, rest: &str) -> (r: Arguments)
    ensures
        parsed_as(shape, rest@, r),
        shape == ArgShape::Quoted && rest@.len() == 0 ==> r matches Arguments::Token(None),
{
    match shape {
        ArgShape::Nothing => Arguments::Nothing,
        ArgShape::Quoted => Arguments::Token(first_quoted_arg(rest)),
        ArgShape::Rest => Arguments::Text(String::from_str(trim_spaces(rest))),
    }
}

/// What to do with one incoming message.
#[derive(Debug)]
pub enum Outcome {
    /// No prefix: the message is not a command.
    Ignored,
    /// A prefix but no known command: nothing is done.
    Unknown,
    /// A command that only runs in guilds, sent directly: nothing is done.
    GuildOnly(CommandId),
    /// Refused by the rate limiter; a notice is due only where `notify` holds.
    Cooldown { retry_after: u64, notify: bool },
    /// A required argument is missing; a usage notice is due.
    Usage(CommandId),
    /// Run the command with these arguments.
    Invoke(CommandId, Arguments),
}

/// The text after the prefix of `t`, without leading white space, where a
/// prefix applies.
pub open spec fn command_text(
    t: Seq<char>,
    origin: Origin,
    policy: DirectPolicy,
    mention: Option<Seq<char>>,
    guild_prefix: Seq<char>,
) -> Option<Seq<char>> {
    let m = if mention_allowed(origin, policy) {
        mention
    } else {
        None
    };
    match prefix_len(t, effective_prefix(origin, policy, guild_prefix), m) {
        Some(n) => Some(trim_start(t.subrange(n, t.len() as int))),
        None => None,
    }
}

/// The first word of a command text.
pub open spec fn head_word(body: Seq<char>) -> Seq<char> {
    body.subrange(0, word_len(body))
}

/// What follows the first word of a command text.
pub open spec fn after_word(body: Seq<char>) -> Seq<char> {
    trim_start(body.subrange(word_len(body), body.len() as int))
}

/// The outcome for command `c`, once it may run, with the text `rest` after its name.
pub open spec fn invocation(c: CommandSpec, rest: Seq<char>, r: Outcome) -> bool {
    if c.needs_arg && trim(rest).len() == 0 {
        r == Outcome::Usage(c.id)
    } else {
        r matches Outcome::Invoke(id, a) && id == c.id && parsed_as(c.shape, rest, a)
    }
}

/// Dispatch settings and state shared by all messages.
pub struct Dispatcher {
    registry: Registry,
    limiter: RateLimiter,
    /// The bot's account id in decimal, where a mention of it is a prefix.
    mention: Option<String>,
    direct: DirectPolicy,
}

/// The characters of an optional string.
pub open spec fn opt_string_view(o: Option<String>) -> Option<Seq<char>> {
    match o {
        Some(s) => Some(s@),
        None => None,
    }
}

impl Dispatcher {
    /// The command table.
    pub closed spec fn commands(&self) -> Seq<CommandSpec> {
        self.registry.commands@
    }

    /// The bot's account id in decimal, where a mention of it is a prefix.
    pub closed spec fn mention_id(&self) -> Option<Seq<char>> {
        opt_string_view(self.mention)
    }

    /// How direct messages are treated.
    pub closed spec fn direct_policy(&self) -> DirectPolicy {
        self.direct
    }

    /// The command table.
    pub fn registry(&self) -> (r: &Registry)
        ensures
            r.commands@ == self.commands(),
    {
        &self.registry
    }

    /// The dispatcher's invariant: every rate-limit window can occur under its bucket.
    pub open spec fn wf(&self) -> bool {
        crate::ratelimit::windows_ok(self.bucket(), self.windows())
    }

    /// The rate limiter's bucket.
    pub closed spec fn bucket(&self) -> Bucket {
        self.limiter.bucket()
    }

    /// The rate limiter's window of each scope.
    pub closed spec fn windows(&self) -> Map<u64, crate::ratelimit::Window> {
        self.limiter.windows()
    }

    /// A dispatcher over `registry` whose rate-limited commands share `bucket`.
    pub fn new(registry: Registry, bucket: Bucket, mention: Option<String>, direct: DirectPolicy) -> (r: Self)
        ensures
            r.commands() == registry.commands@,
            r.mention_id() == opt_string_view(mention),
            r.direct_policy() == direct,
            r.bucket() == bucket,
            r.windows() == Map::<u64, crate::ratelimit::Window>::empty(),
            r.wf(),
    {
        Dispatcher { registry, limiter: RateLimiter::new(bucket), mention, direct }
    }

    /// Decides what the message `text`, sent by `author` from `origin` at
    /// `now` (seconds), asks for; `guild_prefix` is the guild's prefix.
    /// Only a rate-limited command that was found and may run in `origin`
    /// counts against the author's quota.
    pub fn dispatch(&mut self, text: &str, origin: Origin, guild_prefix: &str, author: u64, now: u64) -> (r: Outcome)
        ensures
            old(self).wf() ==> final(self).wf(),
            final(self).commands() == old(self).commands(),
            final(self).mention_id() == old(self).mention_id(),
            final(self).direct_policy() == old(self).direct_policy(),
            final(self).bucket() == old(self).bucket(),
            ({
                let cmds = old(self).commands();
                match command_text(text@, origin, old(self).direct_policy(), old(self).mention_id(), guild_prefix@) {
                    None => r is Ignored && final(self).windows() == old(self).windows(),
                    Some(body) => match find_command(cmds, lower_of(head_word(body))) {
                        None => r is Unknown && final(self).windows() == old(self).windows(),
                        Some(i) => {
                            let c = cmds[i];
                            if c.guild_only && origin is Direct {
                                r == Outcome::GuildOnly(c.id) && final(self).windows() == old(self).windows()
                            } else if c.rate_limited {
                                let (w, d) = step(old(self).bucket(), window_of(old(self).windows(), author), now);
                                &&& final(self).windows() == old(self).windows().insert(author, w)
                                &&& match d {
                                    RateDecision::Limited { retry_after, first_notice } =>
                                        r == (Outcome::Cooldown { retry_after, notify: first_notice }),
                                    RateDecision::Allowed => invocation(c, after_word(body), r),
                                }
                            } else {
                                final(self).windows() == old(self).windows() && invocation(c, after_word(body), r)
                            }
                        },
                    },
                }
            }),
    {
        let mention_allowed = match origin {
            Origin::Guild(_) => true,
            Origin::Direct => self.direct == DirectPolicy::MentionOnly,
        };
        let mention: Option<&str> = if mention_allowed {
            match &self.mention {
                Some(m) => Some(m.as_str()),
                None => None,
            }
        } else {
            None
        };
        let resolved = resolve_prefix(origin, self.direct, guild_prefix);
        let prefix: Option<&str> = match &resolved {
            Some(p) => Some(p.as_str()),
            None => None,
        };
        let n = match strip_prefix_len(text, prefix, mention) {
            Some(n) => n,
            None => return Outcome::Ignored,
        };
        let body = skip_leading_space(text, n);
        let (word, rest) = split_word(body);
        proof {
            lemma_find_from(self.registry.commands@, lower_of(word@), 0);
        }
        let i = match self.registry.lookup(word) {
            Some(i) => i,
            None => return Outcome::Unknown,
        };
        let c = &self.registry.commands[i];
        if c.guild_only && origin == Origin::Direct {
            return Outcome::GuildOnly(c.id);
        }
        if c.rate_limited {
            match self.limiter.check(author, now) {
                RateDecision::Limited { retry_after, first_notice } => {
                    return Outcome::Cooldown { retry_after, notify: first_notice };
                },
                RateDecision::Allowed => {},
            }
        }
        let c = &self.registry.commands[i];
        if c.needs_arg && trim_spaces(rest).unicode_len() == 0 {
            return Outcome::Usage(c.id);
        }
        Outcome::Invoke(c.id, parse_arguments(c.shape, rest))
    }
}

} // verus!
