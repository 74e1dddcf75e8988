//! The conditional-request cache: the freshness token kept for each key.
//!
//! A store is bound to a path and holds at most one entry for a key. It never
//! touches the file itself: it is built from what was read there, and `close`
//! hands back what has to be written.

use crate::sequences::{
    distinct_by, lemma_filter_all, lemma_filter_empty, lemma_filter_keeps_distinct,
    lemma_filter_none, lemma_filter_step,
};
use vstd::prelude::*;
use vstd::std_specs::convert::FromSpecImpl;

verus! {

/// An opaque freshness token that a server hands out with a resource.
#[derive(Debug, PartialEq, Eq, Hash)]
pub struct Etag(String);

impl View for Etag {
    type V = Seq<char>;

    closed spec fn view(&self) -> Seq<char> {
        self.0@
    }
}

impl Clone for Etag {
    fn clone(&self) -> (r: Self)
        ensures
            r == *self,
    {
        Etag(self.0.clone())
    }
}

impl Default for Etag {
    /// The empty token, which asks a server to send the resource in any case.
    fn default() -> (r: Self)
        ensures
            r@ == Seq::<char>::empty(),
    {
        Etag(String::new())
    }
}

impl Etag {
    /// The token that reads `etag`.
    pub fn new(etag: &str) -> (r: Etag)
        ensures
            r@ == etag@,
    {
        Etag(etag.to_owned())
    }

    /// The text of the token.
    pub fn as_ref(&self) -> (r: &str)
        ensures
            r@ == self@,
    {
        self.0.as_str()
    }
}

impl From<String> for Etag {
    fn from(text: String) -> (r: Self)
        ensures
            r@ == text@,
    {
        Etag(text)
    }
}

impl FromSpecImpl<String> for Etag {
    open spec fn obeys_from_spec() -> bool {
        true
    }

    closed spec fn from_spec(text: String) -> Self {
        Etag(text)
    }
}

impl From<Etag> for String {
    fn from(etag: Etag) -> (r: Self)
        ensures
            r@ == etag@,
    {
        etag.0
    }
}

impl FromSpecImpl<Etag> for String {
    open spec fn obeys_from_spec() -> bool {
        true
    }

    closed spec fn from_spec(etag: Etag) -> Self {
        etag.0
    }
}

/// What one entry of a store says: `value` is the token kept for `key`.
pub struct CacheEntry {
    pub key: Seq<char>,
    pub value: Seq<char>,
}

/// One entry of a store.
#[derive(Debug, PartialEq, Eq, Hash)]
pub struct Cache {
    key: String,
    value: Etag,
}

impl View for Cache {
    type V = CacheEntry;

    closed spec fn view(&self) -> CacheEntry {
        CacheEntry { key: self.key@, value: self.value@ }
    }
}

impl Clone for Cache {
    fn clone(&self) -> (r: Self)
        ensures
            r == *self,
    {
        Cache { key: self.key.clone(), value: self.value.clone() }
    }
}

impl Cache {
    /// The entry that keeps the token `value` for `key`.
    pub fn new(key: &str, value: &str) -> (r: Cache)
        ensures
            r@ == (CacheEntry { key: key@, value: value@ }),
    {
        Self { key: key.to_owned(), value: Etag::new(value) }
    }

    /// The key of the entry.
    pub fn as_ref_key(&self) -> (r: &str)
        ensures
            r@ == self@.key,
    {
        self.key.as_str()
    }

    /// The token of the entry.
    pub fn as_ref_value(&self) -> (r: &Etag)
        ensures
            r@ == self@.value,
    {
        &self.value
    }
}

/// What a list of entries says, entry by entry.
pub open spec fn entries_of(list: Seq<Cache>) -> Seq<CacheEntry> {
    list.map_values(|c: Cache| c@)
}

/// No two entries have the same key.
pub open spec fn keys_distinct(entries: Seq<CacheEntry>) -> bool {
    forall|i: int, j: int| 0 <= i < j < entries.len() ==> entries[i].key != entries[j].key
}

/// The token that `entries` keeps for `key`: that of the latest entry with this key.
pub open spec fn token_of(entries: Seq<CacheEntry>, key: Seq<char>) -> Option<Seq<char>>
    decreases entries.len(),
{
    if entries.len() == 0 {
        None
    } else if entries.last().key == key {
        Some(entries.last().value)
    } else {
        token_of(entries.drop_last(), key)
    }
}

/// The entries that `entries` holds for `key`.
pub open spec fn entries_for(entries: Seq<CacheEntry>, key: Seq<char>) -> Seq<CacheEntry> {
    entries.filter(|e: CacheEntry| e.key == key)
}

/// `entries` without those for `key`.
pub open spec fn without_key(entries: Seq<CacheEntry>, key: Seq<char>) -> Seq<CacheEntry> {
    entries.filter(|e: CacheEntry| e.key != key)
}

/// `entries` after `entry` took the place of whatever was kept for its key.
pub open spec fn with_entry(entries: Seq<CacheEntry>, entry: CacheEntry) -> Seq<CacheEntry> {
    without_key(entries, entry.key).push(entry)
}

/// The store that results from putting `items` one after the other into `entries`.
pub open spec fn put_all(entries: Seq<CacheEntry>, items: Seq<CacheEntry>) -> Seq<CacheEntry>
    decreases items.len(),
{
    if items.len() == 0 {
        entries
    } else {
        with_entry(put_all(entries, items.drop_last()), items.last())
    }
}

/// A choice among entries with distinct keys has distinct keys.
pub proof fn lemma_filter_keeps_keys_distinct(
    entries: Seq<CacheEntry>,
    keep: spec_fn(CacheEntry) -> bool,
)
    requires
        keys_distinct(entries),
    ensures
        keys_distinct(entries.filter(keep)),
{
    let key = |e: CacheEntry| e.key;
    assert(distinct_by(entries, key));
    lemma_filter_keeps_distinct(entries, key, keep);
    let kept = entries.filter(keep);
    assert forall|i: int, j: int| 0 <= i < j < kept.len() implies kept[i].key != kept[j].key by {
        assert(key(kept[i]) != key(kept[j]));
    }
}

/// A store without the entries for a key keeps no token for it, and the tokens
/// of all other keys.
pub proof fn lemma_token_without_key(entries: Seq<CacheEntry>, key: Seq<char>, other: Seq<char>)
    ensures
        token_of(without_key(entries, key), other) == if other == key {
            None
        } else {
            token_of(entries, other)
        },
    decreases entries.len(),
{
    let keep = |e: CacheEntry| e.key != key;
    if entries.len() == 0 {
        lemma_filter_empty(keep);
        assert(entries =~= Seq::<CacheEntry>::empty());
    } else {
        let front = entries.drop_last();
        lemma_filter_step(entries, keep);
        lemma_token_without_key(front, key, other);
        if entries.last().key != key {
            assert(front.filter(keep).push(entries.last()).drop_last() =~= front.filter(keep));
        }
    }
}

/// A put sets the token of its key and leaves the tokens of all other keys.
pub proof fn lemma_token_with_entry(entries: Seq<CacheEntry>, entry: CacheEntry, other: Seq<char>)
    ensures
        token_of(with_entry(entries, entry), other) == if other == entry.key {
            Some(entry.value)
        } else {
            token_of(entries, other)
        },
{
    let rest = without_key(entries, entry.key);
    lemma_token_without_key(entries, entry.key, other);
    assert(rest.push(entry).drop_last() =~= rest);
}

/// Removing the entries for a key keeps the keys distinct.
pub proof fn lemma_without_key_distinct(entries: Seq<CacheEntry>, key: Seq<char>)
    requires
        keys_distinct(entries),
    ensures
        keys_distinct(without_key(entries, key)),
{
    lemma_filter_keeps_keys_distinct(entries, |e: CacheEntry| e.key != key);
}

/// A put keeps the keys distinct.
pub proof fn lemma_with_entry_distinct(entries: Seq<CacheEntry>, entry: CacheEntry)
    requires
        keys_distinct(entries),
    ensures
        keys_distinct(with_entry(entries, entry)),
{
    let keep = |e: CacheEntry| e.key != entry.key;
    let rest = entries.filter(keep);
    lemma_filter_keeps_keys_distinct(entries, keep);
    assert forall|i: int| 0 <= i < rest.len() implies rest[i].key != entry.key by {
        entries.lemma_filter_pred(keep, i);
    }
}

/// After a put, the store holds exactly one entry for the key that was put: the
/// entry that was put.
pub proof fn lemma_put_leaves_one_entry(entries: Seq<CacheEntry>, entry: CacheEntry)
    ensures
        entries_for(with_entry(entries, entry), entry.key) == seq![entry],
{
    let keep = |e: CacheEntry| e.key != entry.key;
    let same = |e: CacheEntry| e.key == entry.key;
    let rest = entries.filter(keep);
    assert forall|i: int| 0 <= i < rest.len() implies !same(#[trigger] rest[i]) by {
        entries.lemma_filter_pred(keep, i);
    }
    lemma_filter_none(rest, same);
    lemma_filter_step(rest.push(entry), same);
    assert(rest.push(entry).drop_last() =~= rest);
    assert(Seq::<CacheEntry>::empty().push(entry) =~= seq![entry]);
}

/// Two puts for one key leave exactly one entry for it, with the token of the
/// second put.
pub proof fn lemma_put_replaces(
    entries: Seq<CacheEntry>,
    key: Seq<char>,
    first: Seq<char>,
    second: Seq<char>,
)
    ensures
        ({
            let once = with_entry(entries, CacheEntry { key, value: first });
            let twice = with_entry(once, CacheEntry { key, value: second });
            &&& entries_for(twice, key) == seq![CacheEntry { key, value: second }]
            &&& token_of(twice, key) == Some(second)
            &&& keys_distinct(entries) ==> keys_distinct(twice)
        }),
{
    let a = CacheEntry { key, value: first };
    let b = CacheEntry { key, value: second };
    let once = with_entry(entries, a);
    lemma_put_leaves_one_entry(once, b);
    lemma_token_with_entry(once, b, key);
    if keys_distinct(entries) {
        lemma_with_entry_distinct(entries, a);
        lemma_with_entry_distinct(once, b);
    }
}

/// Where the keys are distinct, the entry at a position is the one found for its key.
pub proof fn lemma_token_at(entries: Seq<CacheEntry>, at: int)
    requires
        keys_distinct(entries),
        0 <= at < entries.len(),
    ensures
        token_of(entries, entries[at].key) == Some(entries[at].value),
    decreases entries.len(),
{
    if at < entries.len() - 1 {
        lemma_token_at(entries.drop_last(), at);
    }
}

/// No token is kept for a key that no entry has.
pub proof fn lemma_token_absent(entries: Seq<CacheEntry>, key: Seq<char>)
    requires
        forall|i: int| 0 <= i < entries.len() ==> entries[i].key != key,
    ensures
        token_of(entries, key) is None,
    decreases entries.len(),
{
    if entries.len() > 0 {
        lemma_token_absent(entries.drop_last(), key);
    }
}

proof fn lemma_without_key_at(entries: Seq<CacheEntry>, at: int)
    requires
        keys_distinct(entries),
        0 <= at < entries.len(),
    ensures
        without_key(entries, entries[at].key) == entries.remove(at),
    decreases entries.len(),
{
    let key = entries[at].key;
    let keep = |e: CacheEntry| e.key != key;
    let front = entries.drop_last();
    lemma_filter_step(entries, keep);
    if at == entries.len() - 1 {
        assert forall|i: int| 0 <= i < front.len() implies keep(#[trigger] front[i]) by {
            assert(front[i] == entries[i]);
        }
        lemma_filter_all(front, keep);
        assert(entries.remove(at) =~= front);
    } else {
        lemma_without_key_at(front, at);
        assert(front.remove(at).push(entries.last()) =~= entries.remove(at));
    }
}

/// Whatever a store held, after entries with distinct keys were put into it in
/// any order, each of them is found with its own token.
pub proof fn lemma_put_all_keeps_each(entries: Seq<CacheEntry>, items: Seq<CacheEntry>, at: int)
    requires
        keys_distinct(items),
        0 <= at < items.len(),
    ensures
        token_of(put_all(entries, items), items[at].key) == Some(items[at].value),
    decreases items.len(),
{
    let front = items.drop_last();
    lemma_token_with_entry(put_all(entries, front), items.last(), items[at].key);
    if at < items.len() - 1 {
        lemma_put_all_keeps_each(entries, front, at);
    }
}

/// Entries that are put into a store leave the tokens of all keys but their own.
pub proof fn lemma_put_all_keeps_others(
    entries: Seq<CacheEntry>,
    items: Seq<CacheEntry>,
    key: Seq<char>,
)
    requires
        forall|i: int| 0 <= i < items.len() ==> items[i].key != key,
    ensures
        token_of(put_all(entries, items), key) == token_of(entries, key),
    decreases items.len(),
{
    if items.len() > 0 {
        let front = items.drop_last();
        assert forall|i: int| 0 <= i < front.len() implies front[i].key != key by {
            assert(front[i] == items[i]);
        }
        lemma_put_all_keeps_others(entries, front, key);
        lemma_token_with_entry(put_all(entries, front), items.last(), key);
    }
}

/// The order in which writers get their turn makes no difference to what is
/// found afterwards: two orders of the same entries with distinct keys leave
/// the same token for every key.
pub proof fn lemma_put_all_in_any_order(
    entries: Seq<CacheEntry>,
    one: Seq<CacheEntry>,
    other: Seq<CacheEntry>,
    key: Seq<char>,
)
    requires
        keys_distinct(one),
        keys_distinct(other),
        forall|entry: CacheEntry| one.contains(entry) <==> other.contains(entry),
    ensures
        token_of(put_all(entries, one), key) == token_of(put_all(entries, other), key),
{
    if exists|i: int| 0 <= i < one.len() && one[i].key == key {
        let i = choose|i: int| 0 <= i < one.len() && one[i].key == key;
        assert(one.contains(one[i]));
        assert(other.contains(one[i]));
        let j = choose|j: int| 0 <= j < other.len() && other[j] == one[i];
        lemma_put_all_keeps_each(entries, one, i);
        lemma_put_all_keeps_each(entries, other, j);
    } else {
        assert forall|j: int| 0 <= j < other.len() implies other[j].key != key by {
            assert(other.contains(other[j]));
            assert(one.contains(other[j]));
            let i = choose|i: int| 0 <= i < one.len() && one[i] == other[j];
        }
        lemma_put_all_keeps_others(entries, one, key);
        lemma_put_all_keeps_others(entries, other, key);
    }
}

/// Putting entries into a store keeps its keys distinct.
pub proof fn lemma_put_all_distinct(entries: Seq<CacheEntry>, items: Seq<CacheEntry>)
    requires
        keys_distinct(entries),
    ensures
        keys_distinct(put_all(entries, items)),
    decreases items.len(),
{
    if items.len() > 0 {
        lemma_put_all_distinct(entries, items.drop_last());
        lemma_with_entry_distinct(put_all(entries, items.drop_last()), items.last());
    }
}

/// An empty store that took entries with distinct keys holds exactly these: what
/// a store hands out on `close` builds the same store again.
pub proof fn lemma_put_all_into_empty(items: Seq<CacheEntry>)
    requires
        keys_distinct(items),
    ensures
        put_all(Seq::empty(), items) == items,
    decreases items.len(),
{
    if items.len() > 0 {
        let front = items.drop_last();
        let last = items.last();
        lemma_put_all_into_empty(front);
        let keep = |e: CacheEntry| e.key != last.key;
        assert forall|i: int| 0 <= i < front.len() implies keep(#[trigger] front[i]) by {
            assert(front[i] == items[i]);
        }
        lemma_filter_all(front, keep);
        assert(front.push(last) =~= items);
    }
}

/// Entries with distinct keys, none of which the store holds, are put behind
/// what the store holds: the store then holds as many entries more as were put.
pub proof fn lemma_put_all_appends(entries: Seq<CacheEntry>, items: Seq<CacheEntry>)
    requires
        keys_distinct(items),
        forall|i: int, j: int|
            0 <= i < entries.len() && 0 <= j < items.len() ==> entries[i].key != items[j].key,
    ensures
        put_all(entries, items) == entries + items,
        put_all(entries, items).len() == entries.len() + items.len(),
    decreases items.len(),
{
    if items.len() == 0 {
        assert(entries + items =~= entries);
    } else {
        let front = items.drop_last();
        let last = items.last();
        assert forall|i: int, j: int| 0 <= i < j < front.len() implies front[i].key
            != front[j].key by {
            assert(front[i] == items[i] && front[j] == items[j]);
        }
        assert forall|i: int, j: int|
            0 <= i < entries.len() && 0 <= j < front.len() implies entries[i].key
            != front[j].key by {
            assert(front[j] == items[j]);
        }
        lemma_put_all_appends(entries, front);
        let held = entries + front;
        let keep = |e: CacheEntry| e.key != last.key;
        assert forall|i: int| 0 <= i < held.len() implies keep(#[trigger] held[i]) by {
            if i < entries.len() {
                assert(held[i] == entries[i]);
            } else {
                assert(held[i] == items[i - entries.len()]);
            }
        }
        lemma_filter_all(held, keep);
        assert(held.push(last) =~= entries + items);
    }
}

/// A token that was put is found again in the store that is built from what
/// the store handed out to be written.
pub proof fn lemma_put_survives_reload(entries: Seq<CacheEntry>, key: Seq<char>, value: Seq<char>)
    requires
        keys_distinct(entries),
    ensures
        ({
            let written = with_entry(entries, CacheEntry { key, value });
            &&& put_all(Seq::empty(), written) == written
            &&& token_of(put_all(Seq::empty(), written), key) == Some(value)
        }),
{
    let written = with_entry(entries, CacheEntry { key, value });
    lemma_with_entry_distinct(entries, CacheEntry { key, value });
    lemma_put_all_into_empty(written);
    lemma_token_with_entry(entries, CacheEntry { key, value }, key);
}

/// A store of freshness tokens, bound to the path of the file that keeps it.
pub struct CacheHandler {
    path: String,
    cache: Vec<Cache>,
}

impl View for CacheHandler {
    type V = Seq<CacheEntry>;

    /// The entries, oldest first.
    closed spec fn view(&self) -> Seq<CacheEntry> {
        entries_of(self.cache@)
    }
}

impl CacheHandler {
    #[verifier::type_invariant]
    closed spec fn one_entry_per_key(&self) -> bool {
        keys_distinct(entries_of(self.cache@))
    }

    /// The path that the store is bound to.
    pub closed spec fn path_view(&self) -> Seq<char> {
        self.path@
    }

    /// Binds a store to `path`. `stored` is what the file at `path` held: `None`
    /// where it was missing or could not be read as a list of entries, which is
    /// a cold start and no failure. Of two stored entries with one key the later
    /// one is kept.
    pub fn load_from(path: &str, stored: Option<Vec<Cache>>) -> (r: CacheHandler)
        ensures
            r.path_view() == path@,
            r@ == match stored {
                Some(list) => put_all(Seq::empty(), entries_of(list@)),
                None => Seq::empty(),
            },
            keys_distinct(r@),
    {
        let mut handler = CacheHandler { path: path.to_owned(), cache: Vec::new() };
        if let Some(list) = stored {
            let mut at: usize = 0;
            while at < list.len()
                invariant
                    at <= list.len(),
                    handler.path@ == path@,
                    handler@ == put_all(Seq::empty(), entries_of(list@).take(at as int)),
                decreases list.len() - at,
            {
                handler.push(list[at].clone());
                proof {
                    let done = entries_of(list@).take(at as int + 1);
                    assert(done.drop_last() =~= entries_of(list@).take(at as int));
                }
                at += 1;
            }
            proof {
                assert(entries_of(list@).take(at as int) =~= entries_of(list@));
            }
        }
        proof {
            use_type_invariant(&handler);
        }
        handler
    }

    /// The path that the store is bound to.
    pub fn path(&self) -> (r: &str)
        ensures
            r@ == self.path_view(),
    {
        self.path.as_str()
    }

    /// The number of entries, which is the number of keys.
    pub fn len(&self) -> (r: usize)
        ensures
            r == self@.len(),
            keys_distinct(self@),
    {
        proof {
            use_type_invariant(self);
        }
        self.cache.len()
    }

    fn position(&self, key: &String) -> (r: Option<usize>)
        ensures
            match r {
                Some(at) => at < self.cache.len() && self@[at as int].key == key@,
                None => forall|i: int| 0 <= i < self@.len() ==> self@[i].key != key@,
            },
    {
        let mut at: usize = 0;
        while at < self.cache.len()
            invariant
                at <= self.cache.len(),
                forall|i: int| 0 <= i < at ==> self@[i].key != key@,
            decreases self.cache.len() - at,
        {
            if self.cache[at].key == *key {
                return Some(at);
            }
            at += 1;
        }
        None
    }

    /// The token kept for `key`, if there is one.
    pub fn get(&self, key: &str) -> (r: Option<Etag>)
        ensures
            match r {
                Some(token) => token_of(self@, key@) == Some(token@),
                None => token_of(self@, key@) is None,
            },
    {
        proof {
            use_type_invariant(self);
        }
        let wanted = key.to_owned();
        match self.position(&wanted) {
            Some(at) => {
                proof {
                    lemma_token_at(self@, at as int);
                }
                Some(self.cache[at].value.clone())
            },
            None => {
                proof {
                    lemma_token_absent(self@, key@);
                }
                None
            },
        }
    }

    /// Drops the entry for `key`, if there is one.
    pub fn remove(&mut self, key: &str)
        ensures
            final(self)@ == without_key(old(self)@, key@),
            final(self).path_view() == old(self).path_view(),
            keys_distinct(final(self)@),
    {
        proof {
            use_type_invariant(&*self);
        }
        let wanted = key.to_owned();
        match self.position(&wanted) {
            Some(at) => {
                proof {
                    lemma_without_key_at(self@, at as int);
                    lemma_without_key_distinct(self@, key@);
                    assert(entries_of(self.cache@.remove(at as int)) =~= self@.remove(at as int));
                }
                let mut entries = Vec::new();
                std::mem::swap(&mut entries, &mut self.cache);
                entries.remove(at);
                self.cache = entries;
            },
            None => {
                proof {
                    lemma_filter_all(self@, |e: CacheEntry| e.key != key@);
                }
            },
        }
    }

    /// Keeps `cache` in place of whatever was kept for its key.
    pub fn push(&mut self, cache: Cache)
        ensures
            final(self)@ == with_entry(old(self)@, cache@),
            final(self).path_view() == old(self).path_view(),
            keys_distinct(final(self)@),
    {
        proof {
            use_type_invariant(&*self);
            lemma_with_entry_distinct(self@, cache@);
        }
        self.remove(cache.key.as_str());
        proof {
            assert(entries_of(self.cache@.push(cache)) =~= self@.push(cache@));
        }
        let mut entries = Vec::new();
        std::mem::swap(&mut entries, &mut self.cache);
        entries.push(cache);
        self.cache = entries;
    }

    /// Removes what is kept for the key of `cache`, then keeps `cache`.
    pub fn abs(&mut self, cache: Cache)
        ensures
            final(self)@ == with_entry(old(self)@, cache@),
            final(self).path_view() == old(self).path_view(),
            keys_distinct(final(self)@),
    {
        self.push(cache);
    }

    /// Ends the store's life and hands back what has to be written, and where:
    /// the path that the store was bound to and its entries.
    pub fn close(self) -> (r: (String, Vec<Cache>))
        ensures
            r.0@ == self.path_view(),
            entries_of(r.1@) == self@,
            keys_distinct(self@),
    {
        proof {
            use_type_invariant(&self);
        }
        (self.path, self.cache)
    }
}

} // verus!
