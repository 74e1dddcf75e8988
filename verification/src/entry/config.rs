//! The request for a list of people, and the queue of tokens that goes with
//! requests sent one after the other.

use crate::entry::cache::{
    entries_for, keys_distinct, lemma_filter_keeps_keys_distinct, lemma_put_leaves_one_entry,
    lemma_token_absent, lemma_token_with_entry, lemma_with_entry_distinct, token_of, with_entry,
    without_key, CacheEntry,
};
use crate::entry::engine::{token_to_send, EngineView, FetchEngine};
use crate::entry::transport::salmon::Live;
use crate::ids::{texts_of, StringId};
use crate::models::{livers_of, roster_ids, roster_of, Channel, LiverEntry, LiverEntryView};
use crate::sequences::{lemma_filter_empty, lemma_filter_step, lemma_filter_take_next};
use vstd::prelude::*;

verus! {

/// The people whose channels are asked for.
pub struct RequestEntry(Vec<LiverEntry>);

impl RequestEntry {
    /// The people, one by one.
    pub closed spec fn livers(&self) -> Seq<LiverEntryView> {
        livers_of(self.0@)
    }

    /// The request for the channels of `livers`.
    pub fn new(livers: Vec<LiverEntry>) -> (r: RequestEntry)
        ensures
            r.livers() == livers_of(livers@),
    {
        RequestEntry(livers)
    }

    /// The channels to ask for: those that the people run on the supported
    /// platform.
    pub fn roster(&self) -> (r: Vec<StringId<Channel>>)
        ensures
            texts_of(r@) == roster_ids(self.livers()),
    {
        roster_of(&self.0)
    }

    /// An engine that searches the upcoming videos of the people's channels,
    /// with at most `limit` requests under way; a limit of one asks for one
    /// channel after the other. There is no engine for a limit of zero.
    pub fn engine(&self, limit: usize) -> (r: Option<FetchEngine<StringId<Live>>>)
        ensures
            match r {
                Some(engine) => limit >= 1 && engine@ == (EngineView {
                    limit: limit as nat,
                    roster: roster_ids(self.livers()),
                    issued: 0,
                    in_flight: Seq::<Seq<char>>::empty(),
                    found: Seq::<StringId<Live>>::empty(),
                    failure: None,
                }),
                None => limit == 0,
            },
    {
        FetchEngine::new(self.roster(), limit)
    }
}

/// A token with the key that it was handed out for.
#[derive(Debug, PartialEq, Eq, Hash)]
pub struct ETagCache {
    pub key: String,
    pub etag: String,
}

impl View for ETagCache {
    type V = CacheEntry;

    open spec fn view(&self) -> CacheEntry {
        CacheEntry { key: self.key@, value: self.etag@ }
    }
}

impl Clone for ETagCache {
    fn clone(&self) -> (r: Self)
        ensures
            r == *self,
    {
        ETagCache { key: self.key.clone(), etag: self.etag.clone() }
    }
}

/// What a queue says, entry by entry.
pub open spec fn tokens_of(queue: Seq<ETagCache>) -> Seq<CacheEntry> {
    queue.map_values(|q: ETagCache| q@)
}

/// The queue without the entries for `key`.
pub open spec fn without_entries_for(queue: Seq<ETagCache>, key: Seq<char>) -> Seq<ETagCache> {
    queue.filter(|q: ETagCache| q.key@ != key)
}

/// The queue without the entries whose token is `etag`.
pub open spec fn without_etag(queue: Seq<ETagCache>, etag: Seq<char>) -> Seq<ETagCache> {
    queue.filter(|q: ETagCache| q.etag@ != etag)
}

/// `entries` without those whose token is `token`.
pub open spec fn without_token(entries: Seq<CacheEntry>, token: Seq<char>) -> Seq<CacheEntry> {
    entries.filter(|e: CacheEntry| e.value != token)
}

proof fn lemma_without_entries_for_step(queue: Seq<ETagCache>, key: Seq<char>)
    ensures
        without_entries_for(queue, key) == if queue.len() == 0 {
            queue
        } else if queue.last().key@ != key {
            without_entries_for(queue.drop_last(), key).push(queue.last())
        } else {
            without_entries_for(queue.drop_last(), key)
        },
{
    reveal(Seq::filter);
}

proof fn lemma_without_etag_step(queue: Seq<ETagCache>, etag: Seq<char>)
    ensures
        without_etag(queue, etag) == if queue.len() == 0 {
            queue
        } else if queue.last().etag@ != etag {
            without_etag(queue.drop_last(), etag).push(queue.last())
        } else {
            without_etag(queue.drop_last(), etag)
        },
{
    reveal(Seq::filter);
}

/// A queue without the entries for a key says what it said, without what it
/// said of that key.
pub proof fn lemma_tokens_without_key(queue: Seq<ETagCache>, key: Seq<char>)
    ensures
        tokens_of(without_entries_for(queue, key)) == without_key(tokens_of(queue), key),
    decreases queue.len(),
{
    let keep_said = |e: CacheEntry| e.key != key;
    lemma_without_entries_for_step(queue, key);
    if queue.len() == 0 {
        lemma_filter_empty(keep_said);
        assert(tokens_of(queue) =~= Seq::<CacheEntry>::empty());
    } else {
        let front = queue.drop_last();
        let last = queue.last();
        lemma_tokens_without_key(front, key);
        lemma_filter_step(tokens_of(queue), keep_said);
        assert(tokens_of(queue).drop_last() =~= tokens_of(front));
        assert(tokens_of(queue).last() == last@);
        if last.key@ != key {
            assert(tokens_of(without_entries_for(front, key).push(last)) =~= tokens_of(
                without_entries_for(front, key),
            ).push(last@));
        }
    }
}

/// A queue without the entries with a token says what it said, without what
/// it said with that token.
pub proof fn lemma_tokens_without_etag(queue: Seq<ETagCache>, etag: Seq<char>)
    ensures
        tokens_of(without_etag(queue, etag)) == without_token(tokens_of(queue), etag),
    decreases queue.len(),
{
    let keep_said = |e: CacheEntry| e.value != etag;
    lemma_without_etag_step(queue, etag);
    if queue.len() == 0 {
        lemma_filter_empty(keep_said);
        assert(tokens_of(queue) =~= Seq::<CacheEntry>::empty());
    } else {
        let front = queue.drop_last();
        let last = queue.last();
        lemma_tokens_without_etag(front, etag);
        lemma_filter_step(tokens_of(queue), keep_said);
        assert(tokens_of(queue).drop_last() =~= tokens_of(front));
        assert(tokens_of(queue).last() == last@);
        if last.etag@ != etag {
            assert(tokens_of(without_etag(front, etag).push(last)) =~= tokens_of(
                without_etag(front, etag),
            ).push(last@));
        }
    }
}

/// Where the keys are distinct, taking out the entries with a token leaves no
/// token for the key that had it, and every other key its token.
pub proof fn lemma_token_without_token(entries: Seq<CacheEntry>, token: Seq<char>, key: Seq<char>)
    requires
        keys_distinct(entries),
    ensures
        keys_distinct(without_token(entries, token)),
        token_of(without_token(entries, token), key) == match token_of(entries, key) {
            Some(kept) if kept != token => Some(kept),
            _ => None,
        },
    decreases entries.len(),
{
    let keep = |e: CacheEntry| e.value != token;
    lemma_filter_keeps_keys_distinct(entries, keep);
    if entries.len() == 0 {
        lemma_filter_empty(keep);
        assert(entries =~= Seq::<CacheEntry>::empty());
    } else {
        let front = entries.drop_last();
        let last = entries.last();
        lemma_filter_step(entries, keep);
        assert forall|i: int, j: int| 0 <= i < j < front.len() implies front[i].key
            != front[j].key by {
            assert(front[i] == entries[i] && front[j] == entries[j]);
        }
        lemma_token_without_token(front, token, key);
        let kept = front.filter(keep);
        if keep(last) {
            assert(kept.push(last).drop_last() =~= kept);
        }
        if last.key == key {
            assert forall|i: int| 0 <= i < kept.len() implies kept[i].key != key by {
                assert(kept.contains(kept[i]));
                front.lemma_filter_contains_rev(keep, kept[i]);
                let j = choose|j: int| 0 <= j < front.len() && front[j] == kept[i];
                assert(entries[j] == front[j]);
            }
            lemma_token_absent(kept, key);
        }
    }
}

impl ETagCache {
    /// The entry that holds the token `etag` for `key`.
    pub fn new(key: &str, etag: &str) -> (r: ETagCache)
        ensures
            r.key@ == key@,
            r.etag@ == etag@,
    {
        Self { key: key.to_owned(), etag: etag.to_owned() }
    }

    /// Puts the entry into `queue`, in place of whatever the queue held for its
    /// key: after it the queue holds exactly one entry for the key, with the
    /// token of this entry, at its end. The entries for other keys stay, in
    /// their order.
    pub fn cached(&self, queue: &mut Vec<ETagCache>)
        ensures
            final(queue)@ == without_entries_for(old(queue)@, self.key@).push(*self),
            tokens_of(final(queue)@) == with_entry(tokens_of(old(queue)@), self@),
            entries_for(tokens_of(final(queue)@), self.key@) == seq![self@],
            token_of(tokens_of(final(queue)@), self.key@) == Some(self.etag@),
            keys_distinct(tokens_of(old(queue)@)) ==> keys_distinct(tokens_of(final(queue)@)),
    {
        let ghost others = |q: ETagCache| q.key@ != self.key@;
        let mut kept: Vec<ETagCache> = Vec::new();
        let mut at: usize = 0;
        proof {
            lemma_filter_empty(others);
            assert(queue@.take(0) =~= Seq::<ETagCache>::empty());
        }
        while at < queue.len()
            invariant
                at <= queue.len(),
                queue@ == old(queue)@,
                others == |q: ETagCache| q.key@ != self.key@,
                kept@ == queue@.take(at as int).filter(others),
            decreases queue.len() - at,
        {
            proof {
                lemma_filter_take_next(queue@, others, at as int);
            }
            if queue[at].key != self.key {
                kept.push(queue[at].clone());
            }
            at += 1;
        }
        proof {
            assert(queue@.take(at as int) =~= queue@);
            let said = tokens_of(old(queue)@);
            lemma_tokens_without_key(old(queue)@, self.key@);
            assert(tokens_of(kept@.push(*self)) =~= tokens_of(kept@).push(self@));
            lemma_put_leaves_one_entry(said, self@);
            lemma_token_with_entry(said, self@, self.key@);
            if keys_distinct(said) {
                lemma_with_entry_distinct(said, self@);
            }
        }
        kept.push(self.clone());
        *queue = kept;
    }

    /// The token that `queue` holds for `key`: that of the latest entry for the
    /// key, and the empty text where it holds none.
    pub fn get_etag(queue: &Vec<ETagCache>, key: &str) -> (r: String)
        ensures
            r@ == token_to_send(tokens_of(queue@), key@),
    {
        let wanted = key.to_owned();
        let mut at: usize = queue.len();
        proof {
            assert(tokens_of(queue@).take(at as int) =~= tokens_of(queue@));
        }
        while at > 0
            invariant
                at <= queue.len(),
                wanted@ == key@,
                token_of(tokens_of(queue@), key@) == token_of(
                    tokens_of(queue@).take(at as int),
                    key@,
                ),
            decreases at,
        {
            at -= 1;
            proof {
                let seen = tokens_of(queue@).take(at as int + 1);
                assert(seen.drop_last() =~= tokens_of(queue@).take(at as int));
                assert(seen.last() == queue@[at as int]@);
            }
            if queue[at].key == wanted {
                return queue[at].etag.clone();
            }
        }
        String::new()
    }

    /// Takes the entries whose token is `etag` out of `queue`, and hands the
    /// token back. The other entries stay, in their order.
    pub fn remove_etag(queue: &mut Vec<ETagCache>, etag: String) -> (r: String)
        ensures
            r == etag,
            final(queue)@ == without_etag(old(queue)@, etag@),
            tokens_of(final(queue)@) == without_token(tokens_of(old(queue)@), etag@),
            keys_distinct(tokens_of(old(queue)@)) ==> keys_distinct(tokens_of(final(queue)@)),
    {
        let ghost others = |q: ETagCache| q.etag@ != etag@;
        let mut kept: Vec<ETagCache> = Vec::new();
        let mut at: usize = 0;
        proof {
            lemma_filter_empty(others);
            assert(queue@.take(0) =~= Seq::<ETagCache>::empty());
        }
        while at < queue.len()
            invariant
                at <= queue.len(),
                queue@ == old(queue)@,
                others == |q: ETagCache| q.etag@ != etag@,
                kept@ == queue@.take(at as int).filter(others),
            decreases queue.len() - at,
        {
            proof {
                lemma_filter_take_next(queue@, others, at as int);
            }
            if queue[at].etag != etag {
                kept.push(queue[at].clone());
            }
            at += 1;
        }
        proof {
            assert(queue@.take(at as int) =~= queue@);
            lemma_tokens_without_etag(old(queue)@, etag@);
            if keys_distinct(tokens_of(old(queue)@)) {
                lemma_filter_keeps_keys_distinct(
                    tokens_of(old(queue)@),
                    |e: CacheEntry| e.value != etag@,
                );
            }
        }
        *queue = kept;
        etag
    }
}

/// Two puts for one key leave exactly one entry for it in the queue, with the
/// token of the second put, and that token is the one that is found.
pub proof fn lemma_cached_replaces(queue: Seq<ETagCache>, first: ETagCache, second: ETagCache)
    requires
        first.key@ == second.key@,
    ensures
        ({
            let once = without_entries_for(queue, first.key@).push(first);
            let twice = without_entries_for(once, second.key@).push(second);
            &&& entries_for(tokens_of(twice), second.key@) == seq![second@]
            &&& token_to_send(tokens_of(twice), second.key@) == second.etag@
            &&& keys_distinct(tokens_of(queue)) ==> keys_distinct(tokens_of(twice))
        }),
{
    let once = without_entries_for(queue, first.key@).push(first);
    let twice = without_entries_for(once, second.key@).push(second);
    lemma_tokens_without_key(queue, first.key@);
    lemma_tokens_without_key(once, second.key@);
    assert(tokens_of(once) =~= with_entry(tokens_of(queue), first@));
    assert(tokens_of(twice) =~= with_entry(tokens_of(once), second@));
    lemma_put_leaves_one_entry(tokens_of(once), second@);
    lemma_token_with_entry(tokens_of(once), second@, second.key@);
    if keys_distinct(tokens_of(queue)) {
        lemma_with_entry_distinct(tokens_of(queue), first@);
        lemma_with_entry_distinct(tokens_of(once), second@);
    }
}

/// A put into the queue sets the token that is found for its key and leaves
/// what is found for every other key.
pub proof fn lemma_cached_then_found(queue: Seq<ETagCache>, entry: ETagCache, key: Seq<char>)
    ensures
        token_to_send(tokens_of(without_entries_for(queue, entry.key@).push(entry)), key) == if key
            == entry.key@ {
            entry.etag@
        } else {
            token_to_send(tokens_of(queue), key)
        },
{
    let put = without_entries_for(queue, entry.key@).push(entry);
    lemma_tokens_without_key(queue, entry.key@);
    assert(tokens_of(put) =~= with_entry(tokens_of(queue), entry@));
    lemma_token_with_entry(tokens_of(queue), entry@, key);
}

/// In a queue with distinct keys, after the entries with a token were taken
/// out nothing is found for the key that had it, and every other key keeps
/// what is found for it.
pub proof fn lemma_removed_then_found(queue: Seq<ETagCache>, etag: Seq<char>, key: Seq<char>)
    requires
        keys_distinct(tokens_of(queue)),
    ensures
        token_to_send(tokens_of(without_etag(queue, etag)), key) == if token_of(
            tokens_of(queue),
            key,
        ) == Some(etag) {
            Seq::<char>::empty()
        } else {
            token_to_send(tokens_of(queue), key)
        },
{
    lemma_tokens_without_etag(queue, etag);
    lemma_token_without_token(tokens_of(queue), etag, key);
}

} // verus!
