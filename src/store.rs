//! Guild configuration: one optional custom prefix per guild, with a
//! process-wide default used wherever a guild has none.

use crate::text::{trim, trim_spaces};
use std::collections::HashMap;
use vstd::prelude::*;
use vstd::string::*;

verus! {

broadcast use vstd::std_specs::hash::group_hash_axioms;

/// Why a prefix could not be stored.
#[derive(Debug, Clone, Copy, PartialEq, Eq, Structural)]
pub enum PrefixError {
    /// The prefix is empty once surrounding white space is removed.
    Empty,
}

/// The prefix that applies to guild `g`, given the stored prefixes `rows`.
pub open spec fn resolved_prefix(rows: Map<u64, Seq<char>>, default: Seq<char>, g: u64) -> Seq<char> {
    if rows.contains_key(g) {
        rows[g]
    } else {
        default
    }
}

/// The stored prefixes after guild `g` is given the prefix typed as `raw`,
/// or `None` where `raw` is rejected.
pub open spec fn after_set(rows: Map<u64, Seq<char>>, g: u64, raw: Seq<char>) -> Option<
    Map<u64, Seq<char>>,
> {
    if trim(raw).len() == 0 {
        None
    } else {
        Some(rows.insert(g, trim(raw)))
    }
}

/// Whether a custom prefix can be stored: non-empty, without surrounding white space.
pub open spec fn valid_prefix(p: Seq<char>) -> bool {
    p.len() > 0 && trim(p) == p
}

/// Whether stored prefixes and a default can be used: every stored prefix
/// is valid, and the default is non-empty.
pub open spec fn store_ok(rows: Map<u64, Seq<char>>, default: Seq<char>) -> bool {
    &&& default.len() > 0
    &&& forall|g: u64| rows.contains_key(g) ==> valid_prefix(#[trigger] rows[g])
}

/// Storing a prefix keeps every stored prefix valid.
pub proof fn lemma_set_keeps_store_ok(rows: Map<u64, Seq<char>>, default: Seq<char>, g: u64, raw: Seq<char>)
    requires
        store_ok(rows, default),
    ensures
        after_set(rows, g, raw) matches Some(after) ==> store_ok(after, default),
{
    crate::text::lemma_trim_idempotent(raw);
}

/// In a usable store no guild resolves to an empty prefix.
pub proof fn lemma_prefix_never_empty(rows: Map<u64, Seq<char>>, default: Seq<char>, g: u64)
    requires
        store_ok(rows, default),
    ensures
        resolved_prefix(rows, default, g).len() > 0,
{
}

/// What a read of the backing store gave for one guild.
pub enum PrefixLookup {
    /// The guild has a row; its prefix column may be empty.
    Row(Option<String>),
    /// The guild has no row.
    Missing,
    /// The store could not be read.
    Failed,
}

/// The prefix a lookup stands for: the stored one where there is a
/// non-empty one, else the default.
pub open spec fn lookup_prefix(lookup: PrefixLookup, default: Seq<char>) -> Seq<char> {
    match lookup {
        PrefixLookup::Row(Some(p)) => if p@.len() > 0 {
            p@
        } else {
            default
        },
        _ => default,
    }
}

/// The prefix for a guild from the result of reading the backing store.
/// A failed read falls back to the default, like a missing row.
pub fn prefix_from_lookup(lookup: PrefixLookup, default: &str) -> (r: String)
    ensures
        r@ == lookup_prefix(lookup, default@),
        default@.len() > 0 ==> r@.len() > 0,
{
    match lookup {
        PrefixLookup::Row(Some(p)) => if p.as_str().unicode_len() > 0 {
            p
        } else {
            String::from_str(default)
        },
        _ => String::from_str(default),
    }
}

/// A custom prefix as typed by an operator, with surrounding white space
/// removed, or `Empty` where nothing is left.
pub fn normalize_prefix(raw: &str) -> (r: Result<String, PrefixError>)
    ensures
        trim(raw@).len() == 0 <==> r is Err,
        r is Err ==> r == Err::<String, PrefixError>(PrefixError::Empty),
        r matches Ok(p) ==> p@ == trim(raw@),
{
    let t = trim_spaces(raw);
    if t.unicode_len() == 0 {
        Err(PrefixError::Empty)
    } else {
        Ok(String::from_str(t))
    }
}

/// The prefixes of the guilds that have set one, in memory.
pub struct PrefixStore {
    default: String,
    rows: HashMap<u64, String>,
}

impl PrefixStore {
    /// The stored prefixes, by guild.
    pub closed spec fn rows(&self) -> Map<u64, Seq<char>> {
        self.rows@.map_values(|p: String| p@)
    }

    /// The prefix of guilds without a custom one.
    pub closed spec fn default_prefix(&self) -> Seq<char> {
        self.default@
    }

    /// The store's invariant: see [`store_ok`].
    pub open spec fn wf(&self) -> bool {
        store_ok(self.rows(), self.default_prefix())
    }

    /// A store in which no guild has a custom prefix.
    pub fn new(default: &str) -> (r: Self)
        ensures
            default@.len() > 0 ==> r.wf(),
            r.rows() == Map::<u64, Seq<char>>::empty(),
            r.default_prefix() == default@,
    {
        let r = PrefixStore { default: String::from_str(default), rows: HashMap::new() };
        proof {
            assert(r.rows() =~= Map::<u64, Seq<char>>::empty());
        }
        r
    }

    /// The prefix that applies in guild `g`.
    pub fn get_prefix(&self, g: u64) -> (r: String)
        ensures
            r@ == resolved_prefix(self.rows(), self.default_prefix(), g),
    {
        match self.rows.get(&g) {
            Some(p) => p.clone(),
            None => self.default.clone(),
        }
    }

    /// The custom prefix of guild `g`, if it has one.
    pub fn stored_prefix(&self, g: u64) -> (r: Option<String>)
        ensures
            self.rows().contains_key(g) ==> (r matches Some(p) && p@ == self.rows()[g]),
            !self.rows().contains_key(g) ==> r is None,
    {
        match self.rows.get(&g) {
            Some(p) => Some(p.clone()),
            None => None,
        }
    }

    /// Gives guild `g` the prefix typed as `raw`, with surrounding white
    /// space removed; one left empty is refused and nothing changes.
    pub fn set_prefix(&mut self, g: u64, raw: &str) -> (r: Result<(), PrefixError>)
        ensures
            old(self).wf() ==> final(self).wf(),
            final(self).default_prefix() == old(self).default_prefix(),
            match after_set(old(self).rows(), g, raw@) {
                Some(rows) => r is Ok && final(self).rows() == rows,
                None => r == Err::<(), PrefixError>(PrefixError::Empty) && final(self).rows()
                    == old(self).rows(),
            },
    {
        match normalize_prefix(raw) {
            Ok(p) => {
                let ghost v = p@;
                self.rows.insert(g, p);
                proof {
                    assert(self.rows() =~= old(self).rows().insert(g, v));
                    if old(self).wf() {
                        lemma_set_keeps_store_ok(old(self).rows(), old(self).default_prefix(), g, raw@);
                    }
                }
                Ok(())
            },
            Err(e) => Err(e),
        }
    }
}

/// A guild that has never set a prefix gets the default.
pub proof fn lemma_unset_guild_gets_default(rows: Map<u64, Seq<char>>, default: Seq<char>, g: u64)
    requires
        !rows.contains_key(g),
    ensures
        resolved_prefix(rows, default, g) == default,
{
}

/// Setting a non-empty prefix without surrounding white space and then
/// reading it back gives exactly that prefix, whatever was stored before.
pub proof fn lemma_set_then_get(rows: Map<u64, Seq<char>>, default: Seq<char>, g: u64, p: Seq<char>)
    requires
        p.len() > 0,
        trim(p) == p,
    ensures
        after_set(rows, g, p) matches Some(after) && resolved_prefix(after, default, g) == p,
{
}

/// Setting the empty prefix is refused: the guild's prefix stays what it was.
pub proof fn lemma_empty_prefix_refused(rows: Map<u64, Seq<char>>, g: u64)
    ensures
        after_set(rows, g, Seq::<char>::empty()) is None,
{
}

} // verus!
