//! The fetch engine: which conditional request to send next, and what a
//! response does to the cache and to the result.
//!
//! The engine sends nothing. A driver asks it for the next request, sends it,
//! and hands back what came, in the order in which the responses arrive. The
//! engine keeps the number of requests under way within its limit, records the
//! first fatal condition, and hands out no request once one is recorded, while
//! responses that are still under way are taken in as they come.

use crate::entry::cache::{token_of, with_entry, Cache, CacheEntry, CacheHandler, Etag};
use crate::entry::request::RequestError;
use crate::ids::{texts_of, StringId};
use crate::models::Channel;
use vstd::prelude::*;

verus! {

/// What a status code means to the protocol.
#[derive(Debug, Clone, Copy, PartialEq, Eq, Hash)]
pub enum ResponseKind {
    /// 200: the resource is sent, with a new token.
    Fresh,
    /// 304: nothing changed since the token was handed out.
    NotModified,
    /// 429: the quota is used up.
    QuotaExhausted,
    /// Any other status.
    Unknown,
}

/// What the status code `status` means to the protocol.
pub open spec fn kind_of(status: u16) -> ResponseKind {
    if status == 200 {
        ResponseKind::Fresh
    } else if status == 304 {
        ResponseKind::NotModified
    } else if status == 429 {
        ResponseKind::QuotaExhausted
    } else {
        ResponseKind::Unknown
    }
}

/// What the status code `status` means to the protocol.
pub fn classify(status: u16) -> (r: ResponseKind)
    ensures
        r == kind_of(status),
{
    if status == 200 {
        ResponseKind::Fresh
    } else if status == 304 {
        ResponseKind::NotModified
    } else if status == 429 {
        ResponseKind::QuotaExhausted
    } else {
        ResponseKind::Unknown
    }
}

/// The failure that stands after `next` was met: the first one stays.
pub open spec fn first_failure(known: Option<RequestError>, next: RequestError) -> Option<
    RequestError,
> {
    match known {
        Some(_) => known,
        None => Some(next),
    }
}

/// The token to send for `key`: the one that is kept, or the empty token.
pub open spec fn token_to_send(entries: Seq<CacheEntry>, key: Seq<char>) -> Seq<char> {
    match token_of(entries, key) {
        Some(token) => token,
        None => Seq::empty(),
    }
}

/// `keys` without the first occurrence of `key`.
pub open spec fn without_first(keys: Seq<Seq<char>>, key: Seq<char>) -> Seq<Seq<char>>
    decreases keys.len(),
{
    if keys.len() == 0 {
        keys
    } else if keys[0] == key {
        keys.drop_first()
    } else {
        seq![keys[0]] + without_first(keys.drop_first(), key)
    }
}

proof fn lemma_without_first_at(keys: Seq<Seq<char>>, key: Seq<char>, at: int)
    requires
        0 <= at < keys.len(),
        keys[at] == key,
        forall|i: int| 0 <= i < at ==> keys[i] != key,
    ensures
        without_first(keys, key) == keys.remove(at),
    decreases at,
{
    if at == 0 {
        assert(keys.remove(0) =~= keys.drop_first());
    } else {
        let rest = keys.drop_first();
        assert forall|i: int| 0 <= i < at - 1 implies rest[i] != key by {
            assert(rest[i] == keys[i + 1]);
        }
        lemma_without_first_at(rest, key, at - 1);
        assert(seq![keys[0]] + rest.remove(at - 1) =~= keys.remove(at));
    }
}

/// A conditional request for the resource of a channel.
#[derive(Debug, PartialEq, Eq, Hash)]
pub struct SearchRequest {
    pub channel: StringId<Channel>,
    /// The token to send; the empty token asks for the resource in any case.
    pub token: Etag,
}

/// The state of an engine.
pub struct EngineView<T> {
    /// The largest number of requests that may be under way.
    pub limit: nat,
    /// The channels to ask for, in the order in which they are asked for.
    pub roster: Seq<Seq<char>>,
    /// How many channels of the roster were handed out.
    pub issued: nat,
    /// The channels whose requests are under way.
    pub in_flight: Seq<Seq<char>>,
    /// What the responses brought, in the order of their arrival.
    pub found: Seq<T>,
    /// The first fatal condition that was met.
    pub failure: Option<RequestError>,
}

impl<T> EngineView<T> {
    /// The limit admits a request, no more channels were handed out than the
    /// roster has, and the requests under way are within the limit.
    pub open spec fn valid(self) -> bool {
        &&& self.limit >= 1
        &&& self.issued <= self.roster.len()
        &&& self.in_flight.len() <= self.limit
        &&& self.in_flight.len() <= self.issued
    }

    /// A request may be handed out: nothing fatal was met, the limit leaves
    /// room, and a channel is left.
    pub open spec fn may_issue(self) -> bool {
        &&& self.failure is None
        &&& self.in_flight.len() < self.limit
        &&& self.issued < self.roster.len()
    }

    /// The state after the next channel was handed out.
    pub open spec fn issue(self) -> Self {
        EngineView {
            issued: self.issued + 1,
            in_flight: self.in_flight.push(self.roster[self.issued as int]),
            ..self
        }
    }

    /// No request is under way and none will be handed out.
    pub open spec fn drained(self) -> bool {
        &&& self.in_flight.len() == 0
        &&& (self.failure is Some || self.issued == self.roster.len())
    }

    /// The state after the request for `channel` came to its end.
    pub open spec fn settle(self, channel: Seq<char>) -> Self {
        EngineView { in_flight: without_first(self.in_flight, channel), ..self }
    }

    /// The state after a response with `status` was taken in. `body` is what
    /// a response with content held, where it could be read: its token and
    /// its items.
    pub open spec fn absorb(self, status: u16, body: Option<(String, Vec<T>)>) -> Self {
        match kind_of(status) {
            ResponseKind::Fresh => match body {
                Some(read) => EngineView { found: self.found + read.1@, ..self },
                None => EngineView {
                    failure: first_failure(self.failure, RequestError::DataParse),
                    ..self
                },
            },
            ResponseKind::NotModified => self,
            ResponseKind::QuotaExhausted => EngineView {
                failure: first_failure(self.failure, RequestError::QuotaExhausted),
                ..self
            },
            ResponseKind::Unknown => EngineView {
                failure: first_failure(self.failure, RequestError::UnknownStatus(status)),
                ..self
            },
        }
    }

    /// What the cycle came to, once it is drained.
    pub open spec fn outcome(self) -> Result<Seq<T>, RequestError> {
        match self.failure {
            Some(e) => Err(e),
            None => Ok(self.found),
        }
    }
}

/// The cache after a response with `status` for `key` was taken in: a response
/// with content that could be read puts its token, any other changes nothing.
pub open spec fn cache_after<T>(
    entries: Seq<CacheEntry>,
    key: Seq<char>,
    status: u16,
    body: Option<(String, Vec<T>)>,
) -> Seq<CacheEntry> {
    match body {
        Some(read) if kind_of(status) == ResponseKind::Fresh => with_entry(
            entries,
            CacheEntry { key, value: read.0@ },
        ),
        _ => entries,
    }
}

/// An engine for one stage of conditional requests, which finds items of type
/// `T`.
pub struct FetchEngine<T> {
    limit: usize,
    roster: Vec<StringId<Channel>>,
    issued: usize,
    in_flight: Vec<StringId<Channel>>,
    found: Vec<T>,
    failure: Option<RequestError>,
}

impl<T> View for FetchEngine<T> {
    type V = EngineView<T>;

    closed spec fn view(&self) -> EngineView<T> {
        EngineView {
            limit: self.limit as nat,
            roster: texts_of(self.roster@),
            issued: self.issued as nat,
            in_flight: texts_of(self.in_flight@),
            found: self.found@,
            failure: self.failure,
        }
    }
}

impl<T> FetchEngine<T> {
    #[verifier::type_invariant]
    closed spec fn within_limit(&self) -> bool {
        self@.valid()
    }

    /// An engine that asks for the channels of `roster`, with at most `limit`
    /// requests under way. A limit of zero admits no request, so no engine is
    /// made for it.
    pub fn new(roster: Vec<StringId<Channel>>, limit: usize) -> (r: Option<FetchEngine<T>>)
        ensures
            match r {
                Some(engine) => limit >= 1 && engine@ == (EngineView {
                    limit: limit as nat,
                    roster: texts_of(roster@),
                    issued: 0,
                    in_flight: Seq::<Seq<char>>::empty(),
                    found: Seq::<T>::empty(),
                    failure: None,
                }) && engine@.valid(),
                None => limit == 0,
            },
    {
        if limit == 0 {
            return None;
        }
        let engine = FetchEngine {
            limit,
            roster,
            issued: 0,
            in_flight: Vec::new(),
            found: Vec::new(),
            failure: None,
        };
        proof {
            assert(engine@.in_flight =~= Seq::empty());
        }
        Some(engine)
    }

    /// Hands out the next request, if one may be handed out: the next channel
    /// of the roster, with the token that `cache` keeps for it.
    pub fn next_request(&mut self, cache: &CacheHandler) -> (r: Option<SearchRequest>)
        ensures
            final(self)@.valid(),
            final(self)@ == old(self)@.step(EngineEvent::Ask),
            match r {
                Some(request) => {
                    &&& old(self)@.may_issue()
                    &&& final(self)@ == old(self)@.issue()
                    &&& request.channel@ == old(self)@.roster[old(self)@.issued as int]
                    &&& request.token@ == token_to_send(cache@, request.channel@)
                },
                None => !old(self)@.may_issue() && final(self)@ == old(self)@,
            },
    {
        proof {
            use_type_invariant(&*self);
        }
        if self.failure.is_some() || self.in_flight.len() >= self.limit || self.issued
            >= self.roster.len() {
            return None;
        }
        let channel = self.roster[self.issued].clone();
        let token = match cache.get(channel.as_ref()) {
            Some(token) => token,
            None => Etag::default(),
        };
        proof {
            assert(texts_of(self.in_flight@.push(channel)) =~= texts_of(self.in_flight@).push(
                channel@,
            ));
        }
        self.issued = self.issued + 1;
        let mut under_way = Vec::new();
        std::mem::swap(&mut under_way, &mut self.in_flight);
        under_way.push(channel.clone());
        self.in_flight = under_way;
        Some(SearchRequest { channel, token })
    }

    fn position_in_flight(&self, channel: &String) -> (r: Option<usize>)
        ensures
            match r {
                Some(at) => {
                    &&& at < self.in_flight.len()
                    &&& self@.in_flight[at as int] == channel@
                    &&& forall|i: int| 0 <= i < at ==> self@.in_flight[i] != channel@
                },
                None => !self@.in_flight.contains(channel@),
            },
    {
        let mut at: usize = 0;
        while at < self.in_flight.len()
            invariant
                at <= self.in_flight.len(),
                forall|i: int| 0 <= i < at ==> self@.in_flight[i] != channel@,
            decreases self.in_flight.len() - at,
        {
            if self.in_flight[at].same_text(channel) {
                return Some(at);
            }
            at += 1;
        }
        None
    }

    /// Takes the request for `channel` off the requests under way. `false`
    /// where no such request is under way; nothing changes then.
    fn settle(&mut self, channel: &str) -> (r: bool)
        ensures
            final(self)@.valid(),
            r == old(self)@.in_flight.contains(channel@),
            r ==> final(self)@ == old(self)@.settle(channel@),
            !r ==> final(self)@ == old(self)@,
    {
        proof {
            use_type_invariant(&*self);
        }
        let wanted = channel.to_owned();
        match self.position_in_flight(&wanted) {
            Some(at) => {
                proof {
                    lemma_without_first_at(self@.in_flight, channel@, at as int);
                    assert(texts_of(self.in_flight@.remove(at as int)) =~= self@.in_flight.remove(
                        at as int,
                    ));
                    assert(self@.in_flight.contains(channel@));
                }
                let mut under_way = Vec::new();
                std::mem::swap(&mut under_way, &mut self.in_flight);
                under_way.remove(at);
                self.in_flight = under_way;
                true
            },
            None => false,
        }
    }

    fn fail(&mut self, error: RequestError)
        ensures
            final(self)@.valid(),
            final(self)@ == (EngineView {
                failure: first_failure(old(self)@.failure, error),
                ..old(self)@
            }),
    {
        proof {
            use_type_invariant(&*self);
        }
        if self.failure.is_none() {
            self.failure = Some(error);
        }
    }

    /// Takes in the response to the request for `channel`: its status and, for
    /// a response with content, what could be read of it. A response with
    /// content that could be read puts its token into `cache`, also after a
    /// fatal condition was met. `false` where no request for `channel` is under
    /// way; nothing changes then.
    pub fn complete(
        &mut self,
        cache: &mut CacheHandler,
        channel: &str,
        status: u16,
        body: Option<(String, Vec<T>)>,
    ) -> (r: bool)
        ensures
            final(self)@.valid(),
            final(self)@ == old(self)@.step(
                EngineEvent::Response { channel: channel@, status, body },
            ),
            r == old(self)@.in_flight.contains(channel@),
            r ==> final(self)@ == old(self)@.settle(channel@).absorb(status, body),
            r ==> final(cache)@ == cache_after(old(cache)@, channel@, status, body),
            !r ==> final(self)@ == old(self)@ && final(cache)@ == old(cache)@,
            final(cache).path_view() == old(cache).path_view(),
    {
        if !self.settle(channel) {
            return false;
        }
        match classify(status) {
            ResponseKind::Fresh => match body {
                Some(read) => {
                    let (token, mut items) = read;
                    cache.abs(Cache::new(channel, token.as_str()));
                    proof {
                        use_type_invariant(&*self);
                    }
                    let mut found = Vec::new();
                    std::mem::swap(&mut found, &mut self.found);
                    found.append(&mut items);
                    self.found = found;
                },
                None => {
                    self.fail(RequestError::DataParse);
                },
            },
            ResponseKind::NotModified => {},
            ResponseKind::QuotaExhausted => {
                self.fail(RequestError::QuotaExhausted);
            },
            ResponseKind::Unknown => {
                self.fail(RequestError::UnknownStatus(status));
            },
        }
        proof {
            use_type_invariant(&*self);
        }
        true
    }

    /// Takes in that the request for `channel` could not be sent, or that no
    /// response came: a fatal condition. `false` where no request for `channel`
    /// is under way; nothing changes then.
    pub fn fail_transport(&mut self, channel: &str) -> (r: bool)
        ensures
            final(self)@.valid(),
            final(self)@ == old(self)@.step(EngineEvent::Lost { channel: channel@ }),
            r == old(self)@.in_flight.contains(channel@),
            r ==> final(self)@ == old(self)@.lose(channel@),
            !r ==> final(self)@ == old(self)@,
    {
        if !self.settle(channel) {
            return false;
        }
        self.fail(RequestError::HttpGet);
        true
    }

    /// The largest number of requests that may be under way.
    pub fn limit(&self) -> (r: usize)
        ensures
            r == self@.limit,
            self@.valid(),
    {
        proof {
            use_type_invariant(self);
        }
        self.limit
    }

    /// The number of requests under way.
    pub fn in_flight(&self) -> (r: usize)
        ensures
            r == self@.in_flight.len(),
            r <= self@.limit,
    {
        proof {
            use_type_invariant(self);
        }
        self.in_flight.len()
    }

    /// The first fatal condition that was met, if any.
    pub fn failure(&self) -> (r: Option<RequestError>)
        ensures
            r == self@.failure,
    {
        self.failure
    }

    /// Whether no request is under way and none will be handed out.
    pub fn is_drained(&self) -> (r: bool)
        ensures
            r == self@.drained(),
    {
        proof {
            use_type_invariant(self);
        }
        self.in_flight.len() == 0 && (self.failure.is_some() || self.issued
            == self.roster.len())
    }

    /// Ends the stage. While requests are under way or left to hand out there
    /// is no result; after that, the first fatal condition, or else what the
    /// responses brought.
    pub fn finish(self) -> (r: Option<Result<Vec<T>, RequestError>>)
        ensures
            match r {
                Some(Ok(found)) => self@.drained() && self@.outcome() == Ok::<
                    Seq<T>,
                    RequestError,
                >(found@),
                Some(Err(e)) => self@.drained() && self@.outcome() == Err::<Seq<T>, RequestError>(
                    e,
                ),
                None => !self@.drained(),
            },
    {
        if !self.is_drained() {
            return None;
        }
        match self.failure {
            Some(e) => Some(Err(e)),
            None => Some(Ok(self.found)),
        }
    }
}

/// What a driver does to an engine.
pub enum EngineEvent<T> {
    /// It asks for the next request.
    Ask,
    /// It hands back the response to the request for `channel`.
    Response { channel: Seq<char>, status: u16, body: Option<(String, Vec<T>)> },
    /// It hands back that the request for `channel` could not be sent, or that
    /// no response came.
    Lost { channel: Seq<char> },
}

impl<T> EngineView<T> {
    /// The state after the request for `channel` was lost.
    pub open spec fn lose(self, channel: Seq<char>) -> Self {
        EngineView {
            failure: first_failure(self.failure, RequestError::HttpGet),
            ..self.settle(channel)
        }
    }

    /// The state after `event`. An event that does not fit the state changes
    /// nothing: asking where no request may be handed out, and handing back
    /// what no request under way asked for.
    pub open spec fn step(self, event: EngineEvent<T>) -> Self {
        match event {
            EngineEvent::Ask => if self.may_issue() {
                self.issue()
            } else {
                self
            },
            EngineEvent::Response { channel, status, body } => if self.in_flight.contains(
                channel,
            ) {
                self.settle(channel).absorb(status, body)
            } else {
                self
            },
            EngineEvent::Lost { channel } => if self.in_flight.contains(channel) {
                self.lose(channel)
            } else {
                self
            },
        }
    }

    /// The state after `events`, one after the other.
    pub open spec fn run(self, events: Seq<EngineEvent<T>>) -> Self
        decreases events.len(),
    {
        if events.len() == 0 {
            self
        } else {
            self.run(events.drop_last()).step(events.last())
        }
    }
}

proof fn lemma_without_first_len(keys: Seq<Seq<char>>, key: Seq<char>)
    requires
        keys.contains(key),
    ensures
        without_first(keys, key).len() == keys.len() - 1,
    decreases keys.len(),
{
    if keys[0] != key {
        let rest = keys.drop_first();
        let i = choose|i: int| 0 <= i < keys.len() && keys[i] == key;
        assert(rest[i - 1] == key);
        lemma_without_first_len(rest, key);
    }
}

/// Whatever a driver does, the engine stays valid: the requests under way are
/// within the limit. Only asking moves the roster on, by one channel and only
/// while nothing fatal was met; a failure, once met, stays.
pub proof fn lemma_step_keeps_valid<T>(engine: EngineView<T>, event: EngineEvent<T>)
    requires
        engine.valid(),
    ensures
        engine.step(event).valid(),
        engine.step(event).in_flight.len() <= engine.limit,
        engine.step(event).limit == engine.limit,
        engine.step(event).roster == engine.roster,
        engine.issued <= engine.step(event).issued <= engine.issued + 1,
        engine.failure is Some ==> engine.step(event).issued == engine.issued
            && engine.step(event).failure == engine.failure,
        event !is Ask ==> engine.step(event).issued == engine.issued,
{
    match event {
        EngineEvent::Ask => {},
        EngineEvent::Response { channel, status, body } => {
            if engine.in_flight.contains(channel) {
                lemma_without_first_len(engine.in_flight, channel);
            }
        },
        EngineEvent::Lost { channel } => {
            if engine.in_flight.contains(channel) {
                lemma_without_first_len(engine.in_flight, channel);
            }
        },
    }
}

/// Through any run the engine stays valid, keeps its roster and its limit,
/// and hands out no channel once a fatal condition was met.
pub proof fn lemma_run_keeps_valid<T>(engine: EngineView<T>, events: Seq<EngineEvent<T>>)
    requires
        engine.valid(),
    ensures
        engine.run(events).valid(),
        engine.run(events).in_flight.len() <= engine.limit,
        engine.run(events).limit == engine.limit,
        engine.run(events).roster == engine.roster,
        engine.issued <= engine.run(events).issued,
        engine.failure is Some ==> engine.run(events).issued == engine.issued
            && engine.run(events).failure == engine.failure,
    decreases events.len(),
{
    if events.len() > 0 {
        lemma_run_keeps_valid(engine, events.drop_last());
        lemma_step_keeps_valid(engine.run(events.drop_last()), events.last());
    }
}

/// While an engine is valid, the requests under way are within its limit, and
/// handing out a request keeps it so.
pub proof fn lemma_issue_stays_within_limit<T>(engine: EngineView<T>)
    requires
        engine.valid(),
        engine.may_issue(),
    ensures
        engine.issue().valid(),
        engine.issue().in_flight.len() == engine.in_flight.len() + 1,
        engine.issue().in_flight.len() <= engine.limit,
{
}

/// Once a fatal condition is recorded, no request is handed out, whatever is
/// taken in after it.
pub proof fn lemma_failure_stops_issuing<T>(
    engine: EngineView<T>,
    channel: Seq<char>,
    status: u16,
    body: Option<(String, Vec<T>)>,
)
    requires
        engine.failure is Some,
    ensures
        !engine.may_issue(),
        engine.settle(channel).absorb(status, body).failure == engine.failure,
        !engine.settle(channel).absorb(status, body).may_issue(),
{
}

/// A quota answer and an unknown status are fatal, and an answer that nothing
/// changed is not: it leaves the result and the failure as they were.
pub proof fn lemma_status_policy<T>(engine: EngineView<T>, status: u16, body: Option<(String, Vec<T>)>)
    ensures
        status == 429 ==> engine.absorb(status, body).failure is Some,
        status != 200 && status != 304 ==> engine.absorb(status, body).failure is Some,
        status == 304 ==> engine.absorb(status, body) == engine,
        status != 200 ==> engine.absorb(status, body).found == engine.found,
{
}

/// A valid engine that is not drained can go on: a request can be handed out,
/// or a response is under way.
pub proof fn lemma_undrained_can_go_on<T>(engine: EngineView<T>)
    requires
        engine.valid(),
        !engine.drained(),
    ensures
        engine.may_issue() || engine.in_flight.len() > 0,
{
}

/// A drained engine without a failure has asked for every channel of its
/// roster, and every request has come to its end.
pub proof fn lemma_drained_asked_for_all<T>(engine: EngineView<T>)
    requires
        engine.valid(),
        engine.drained(),
        engine.failure is None,
    ensures
        engine.issued == engine.roster.len(),
        engine.in_flight.len() == 0,
        engine.outcome() == Ok::<Seq<T>, RequestError>(engine.found),
{
}

} // verus!
