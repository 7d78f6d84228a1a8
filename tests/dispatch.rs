use rustic::dispatch::{parse_arguments, ArgShape, Arguments, CommandId, Dispatcher, Outcome, Registry};
use rustic::ratelimit::Bucket;
use rustic::replies::{current_prefix_reply, prefix_action, updated_prefix_reply, PrefixAction};
use rustic::resolver::{match_mention, match_prefix, split_word, strip_prefix_len, DirectPolicy, Origin};
use rustic::store::PrefixStore;

const GUILD: u64 = 42;
const AUTHOR: u64 = 77;

fn dispatcher(direct: DirectPolicy) -> Dispatcher {
    Dispatcher::new(
        Registry::standard(),
        Bucket { time_span: 5, limit: 1 },
        Some("1234".to_string()),
        direct,
    )
}

/// Runs one message in a guild through the dispatcher and the prefix
/// command, against an in-memory store; returns the reply, if any.
fn prefix_round(d: &mut Dispatcher, store: &mut PrefixStore, text: &str, now: u64) -> Option<String> {
    let gp = store.get_prefix(GUILD);
    match d.dispatch(text, Origin::Guild(GUILD), &gp, AUTHOR, now) {
        Outcome::Invoke(CommandId::Prefix, Arguments::Token(arg)) => match prefix_action(arg) {
            PrefixAction::Show => Some(current_prefix_reply(&store.get_prefix(GUILD))),
            PrefixAction::Store(p) => {
                store.set_prefix(GUILD, &p).unwrap();
                Some(updated_prefix_reply(&p))
            }
            PrefixAction::Refuse => Some("refused".to_string()),
        },
        _ => None,
    }
}

#[test]
fn prefix_command_shows_default() {
    let mut d = dispatcher(DirectPolicy::MentionOnly);
    let mut store = PrefixStore::new("~");
    let reply = prefix_round(&mut d, &mut store, "~prefix", 0).unwrap();
    assert_eq!(reply, "The current guild prefix is: `~`");
    assert!(reply.contains('~'));
}

#[test]
fn prefix_set_then_shown() {
    let mut d = dispatcher(DirectPolicy::MentionOnly);
    let mut store = PrefixStore::new("~");
    assert_eq!(prefix_round(&mut d, &mut store, "~prefix !!", 0).unwrap(), "Updated prefix to: `!!`");
    // The old prefix no longer starts a command in this guild.
    assert_eq!(prefix_round(&mut d, &mut store, "~prefix", 1), None);
    assert_eq!(prefix_round(&mut d, &mut store, "!!prefix", 2).unwrap(), "The current guild prefix is: `!!`");
    assert_eq!(prefix_round(&mut d, &mut store, "<@1234> prefix", 3).unwrap(), "The current guild prefix is: `!!`");
}

#[test]
fn quoted_prefix_with_space() {
    let mut d = dispatcher(DirectPolicy::MentionOnly);
    let mut store = PrefixStore::new("~");
    assert_eq!(prefix_round(&mut d, &mut store, "~prefix \"hey bot\"", 0).unwrap(), "Updated prefix to: `hey bot`");
    assert_eq!(store.get_prefix(GUILD), "hey bot");
    assert_eq!(prefix_round(&mut d, &mut store, "HEY BOTprefix", 1).unwrap(), "The current guild prefix is: `hey bot`");
}

#[test]
fn empty_quoted_prefix_refused() {
    let mut d = dispatcher(DirectPolicy::MentionOnly);
    let mut store = PrefixStore::new("~");
    assert_eq!(prefix_round(&mut d, &mut store, "~prefix \"\"", 0).unwrap(), "refused");
    assert_eq!(store.get_prefix(GUILD), "~");
}

#[test]
fn no_prefix_no_dispatch() {
    let mut d = dispatcher(DirectPolicy::MentionOnly);
    assert!(matches!(d.dispatch("hello there", Origin::Guild(GUILD), "~", AUTHOR, 0), Outcome::Ignored));
    assert!(matches!(d.dispatch("", Origin::Guild(GUILD), "~", AUTHOR, 0), Outcome::Ignored));
    assert!(matches!(d.dispatch("ping", Origin::Direct, "~", AUTHOR, 0), Outcome::Ignored));
    assert!(matches!(d.dispatch("~ping", Origin::Guild(GUILD), "", AUTHOR, 0), Outcome::Ignored));
}

#[test]
fn unknown_command_is_silent() {
    let mut d = dispatcher(DirectPolicy::MentionOnly);
    assert!(matches!(d.dispatch("~pnig", Origin::Guild(GUILD), "~", AUTHOR, 0), Outcome::Unknown));
    assert!(matches!(d.dispatch("~", Origin::Guild(GUILD), "~", AUTHOR, 0), Outcome::Unknown));
}

#[test]
fn names_and_aliases_ignore_case() {
    let mut d = dispatcher(DirectPolicy::MentionOnly);
    assert!(matches!(d.dispatch("~PiNg", Origin::Guild(GUILD), "~", AUTHOR, 0), Outcome::Invoke(CommandId::Ping, Arguments::Nothing)));
    assert!(matches!(d.dispatch("~Stats", Origin::Guild(GUILD), "~", AUTHOR, 0), Outcome::Invoke(CommandId::About, Arguments::Nothing)));
    assert!(matches!(d.dispatch("~ grey", Origin::Guild(GUILD), "~", AUTHOR, 0), Outcome::Invoke(CommandId::Grayscale, _)));
}

#[test]
fn direct_messages_by_policy() {
    let mut d = dispatcher(DirectPolicy::MentionOnly);
    assert!(matches!(d.dispatch("<@!1234> ping", Origin::Direct, "~", AUTHOR, 0), Outcome::Invoke(CommandId::Ping, _)));
    assert!(matches!(d.dispatch("<@1234>prefix", Origin::Direct, "~", AUTHOR, 0), Outcome::GuildOnly(CommandId::Prefix)));
    let mut r = dispatcher(DirectPolicy::Refuse);
    assert!(matches!(r.dispatch("<@1234> ping", Origin::Direct, "~", AUTHOR, 0), Outcome::Ignored));
    assert!(matches!(r.dispatch("<@1234> ping", Origin::Guild(GUILD), "~", AUTHOR, 0), Outcome::Invoke(CommandId::Ping, _)));
}

#[test]
fn rate_limited_commands() {
    let mut d = dispatcher(DirectPolicy::MentionOnly);
    let g = Origin::Guild(GUILD);
    assert!(matches!(d.dispatch("~cat", g, "~", AUTHOR, 100), Outcome::Invoke(CommandId::Cat, _)));
    assert!(matches!(d.dispatch("~cat", g, "~", AUTHOR, 101), Outcome::Cooldown { retry_after: 4, notify: true }));
    assert!(matches!(d.dispatch("~urban x", g, "~", AUTHOR, 102), Outcome::Cooldown { retry_after: 3, notify: false }));
    assert!(matches!(d.dispatch("~ping", g, "~", AUTHOR, 102), Outcome::Invoke(CommandId::Ping, _)));
    assert!(matches!(d.dispatch("~cat", g, "~", AUTHOR + 1, 102), Outcome::Invoke(CommandId::Cat, _)));
    assert!(matches!(d.dispatch("~cat", g, "~", AUTHOR, 105), Outcome::Invoke(CommandId::Cat, _)));
}

#[test]
fn required_argument() {
    let mut d = dispatcher(DirectPolicy::MentionOnly);
    assert!(matches!(d.dispatch("~8ball   ", Origin::Guild(GUILD), "~", AUTHOR, 0), Outcome::Usage(CommandId::EightBall)));
    match d.dispatch("~8b will it rain? ", Origin::Guild(GUILD), "~", AUTHOR, 10) {
        Outcome::Invoke(CommandId::EightBall, Arguments::Text(t)) => assert_eq!(t, "will it rain?"),
        other => panic!("unexpected {:?}", other),
    }
}

#[test]
fn rest_argument() {
    let mut d = dispatcher(DirectPolicy::MentionOnly);
    match d.dispatch("~urban  big   word ", Origin::Guild(GUILD), "~", AUTHOR, 0) {
        Outcome::Invoke(CommandId::Urban, Arguments::Text(t)) => assert_eq!(t, "big   word"),
        other => panic!("unexpected {:?}", other),
    }
}

#[test]
fn resolver_parts() {
    assert_eq!(match_mention("<@1234> hi", "1234"), Some(7));
    assert_eq!(match_mention("<@!1234>", "1234"), Some(8));
    assert_eq!(match_mention("<@12345>", "1234"), None);
    assert_eq!(match_mention("<@1234", "1234"), None);
    assert!(match_prefix("!!PING", "!!"));
    assert!(match_prefix("ABc", "abC"));
    assert!(!match_prefix("~", "~~"));
    assert!(!match_prefix("abc", ""));
    assert_eq!(strip_prefix_len("<@1234>~ping", Some("~"), Some("1234")), Some(7));
    assert_eq!(strip_prefix_len("~ping", None, Some("1234")), None);
    assert_eq!(split_word("ping  a b"), ("ping", "a b"));
    assert_eq!(split_word(""), ("", ""));
}

#[test]
fn registry_names() {
    let r = Registry::standard();
    assert_eq!(r.lookup("EIGHTBALL"), Some(3));
    assert_eq!(r.lookup("8b"), Some(3));
    assert_eq!(r.lookup("statistics"), Some(1));
    assert_eq!(r.lookup("nope"), None);
    assert_eq!(r.commands.len(), 8);
}

#[test]
fn quoted_argument_shapes() {
    assert!(matches!(parse_arguments(ArgShape::Quoted, ""), Arguments::Token(None)));
    match parse_arguments(ArgShape::Quoted, "\"a b\" c") {
        Arguments::Token(Some(t)) => assert_eq!(t, "a b"),
        other => panic!("unexpected {:?}", other),
    }
    match parse_arguments(ArgShape::Quoted, "one two") {
        Arguments::Token(Some(t)) => assert_eq!(t, "one"),
        other => panic!("unexpected {:?}", other),
    }
    assert!(matches!(parse_arguments(ArgShape::Nothing, "x"), Arguments::Nothing));
}

#[test]
fn bare_prefix_command_shows() {
    let mut d = dispatcher(DirectPolicy::MentionOnly);
    assert!(matches!(
        d.dispatch("~prefix   ", Origin::Guild(GUILD), "~", AUTHOR, 0),
        Outcome::Invoke(CommandId::Prefix, Arguments::Token(None))
    ));
}
