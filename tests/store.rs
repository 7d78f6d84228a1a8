use rustic::store::{normalize_prefix, prefix_from_lookup, PrefixError, PrefixLookup, PrefixStore};

#[test]
fn unset_guild_gets_default() {
    let store = PrefixStore::new("~");
    assert_eq!(store.get_prefix(7), "~");
    assert_eq!(store.get_prefix(u64::MAX), "~");
    assert_eq!(store.stored_prefix(7), None);
}

#[test]
fn set_then_get_round_trip() {
    let mut store = PrefixStore::new("~");
    assert_eq!(store.set_prefix(7, "!!"), Ok(()));
    assert_eq!(store.get_prefix(7), "!!");
    assert_eq!(store.get_prefix(8), "~");
    assert_eq!(store.stored_prefix(7), Some("!!".to_string()));
}

#[test]
fn set_with_inner_space_round_trip() {
    let mut store = PrefixStore::new("~");
    assert_eq!(store.set_prefix(3, "hey bot "), Ok(()));
    assert_eq!(store.get_prefix(3), "hey bot");
}

#[test]
fn set_overwrites() {
    let mut store = PrefixStore::new("~");
    store.set_prefix(1, "?").unwrap();
    store.set_prefix(1, "$").unwrap();
    assert_eq!(store.get_prefix(1), "$");
}

#[test]
fn empty_prefix_is_refused() {
    let mut store = PrefixStore::new("~");
    store.set_prefix(5, "!").unwrap();
    assert_eq!(store.set_prefix(5, ""), Err(PrefixError::Empty));
    assert_eq!(store.set_prefix(5, "  \t "), Err(PrefixError::Empty));
    assert_eq!(store.get_prefix(5), "!");
    assert_eq!(store.set_prefix(6, ""), Err(PrefixError::Empty));
    assert_eq!(store.get_prefix(6), "~");
}

#[test]
fn normalize_trims() {
    assert_eq!(normalize_prefix("  >> "), Ok(">>".to_string()));
    assert_eq!(normalize_prefix("\u{3000}"), Err(PrefixError::Empty));
}

#[test]
fn lookup_falls_back_to_default() {
    assert_eq!(prefix_from_lookup(PrefixLookup::Row(Some("!".to_string())), "~"), "!");
    assert_eq!(prefix_from_lookup(PrefixLookup::Row(None), "~"), "~");
    assert_eq!(prefix_from_lookup(PrefixLookup::Row(Some(String::new())), "~"), "~");
    assert_eq!(prefix_from_lookup(PrefixLookup::Missing, "~"), "~");
    assert_eq!(prefix_from_lookup(PrefixLookup::Failed, "~"), "~");
}
