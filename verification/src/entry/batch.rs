//! The second stage: the identifiers that the first stage found are asked for
//! in batches, one request after the other, and what comes is gathered by
//! identifier.

use crate::entry::engine::{classify, kind_of, ResponseKind};
use crate::entry::request::{Keyed, RequestError, VideoInfo};
use crate::ids::{texts_of, StringId};
use crate::sequences::{
    distinct_by, lemma_filter_empty, lemma_filter_keeps_distinct, lemma_filter_take_next,
    lemma_push_contains,
};
use vstd::prelude::*;
use vstd::string::StringExecFns;

verus! {

/// The largest number of identifiers that one detail request may name.
pub const BATCH_SIZE: usize = 50;

/// `ids` without repetitions: of equal identifiers the first stays.
pub open spec fn deduplicated(ids: Seq<Seq<char>>) -> Seq<Seq<char>>
    decreases ids.len(),
{
    if ids.len() == 0 {
        ids
    } else {
        let front = deduplicated(ids.drop_last());
        if front.contains(ids.last()) {
            front
        } else {
            front.push(ids.last())
        }
    }
}

/// A deduplicated sequence names what the sequence names.
pub proof fn lemma_deduplicated_names(ids: Seq<Seq<char>>, id: Seq<char>)
    ensures
        deduplicated(ids).contains(id) <==> ids.contains(id),
    decreases ids.len(),
{
    if ids.len() > 0 {
        let front = ids.drop_last();
        let last = ids.last();
        lemma_deduplicated_names(front, id);
        lemma_deduplicated_names(front, last);
        assert(front.push(last) =~= ids);
        lemma_push_contains(front, last, id);
        lemma_push_contains(deduplicated(front), last, id);
    }
}

/// A deduplicated sequence names nothing twice.
pub proof fn lemma_deduplicated_once(ids: Seq<Seq<char>>)
    ensures
        deduplicated(ids).no_duplicates(),
        deduplicated(ids).len() <= ids.len(),
    decreases ids.len(),
{
    if ids.len() > 0 {
        lemma_deduplicated_once(ids.drop_last());
    }
}

fn holds_id<T>(ids: &Vec<StringId<T>>, id: &StringId<T>) -> (r: bool)
    ensures
        r == texts_of(ids@).contains(id@),
{
    let mut at: usize = 0;
    while at < ids.len()
        invariant
            at <= ids.len(),
            forall|i: int| 0 <= i < at ==> texts_of(ids@)[i] != id@,
        decreases ids.len() - at,
    {
        if ids[at].same(id) {
            proof {
                assert(texts_of(ids@)[at as int] == id@);
            }
            return true;
        }
        at += 1;
    }
    false
}

/// Drops the repetitions from `ids`: of equal identifiers the first stays.
pub fn deduplicate<T>(ids: Vec<StringId<T>>) -> (r: Vec<StringId<T>>)
    ensures
        texts_of(r@) == deduplicated(texts_of(ids@)),
        texts_of(r@).no_duplicates(),
{
    let mut kept: Vec<StringId<T>> = Vec::new();
    let mut at: usize = 0;
    while at < ids.len()
        invariant
            at <= ids.len(),
            texts_of(kept@) == deduplicated(texts_of(ids@).take(at as int)),
        decreases ids.len() - at,
    {
        proof {
            let done = texts_of(ids@).take(at as int + 1);
            assert(done.drop_last() =~= texts_of(ids@).take(at as int));
            assert(done.last() == ids@[at as int]@);
        }
        if !holds_id(&kept, &ids[at]) {
            proof {
                assert(texts_of(kept@.push(ids@[at as int])) =~= texts_of(kept@).push(
                    ids@[at as int]@,
                ));
            }
            kept.push(ids[at].clone());
        }
        at += 1;
    }
    proof {
        assert(texts_of(ids@).take(at as int) =~= texts_of(ids@));
        lemma_deduplicated_once(texts_of(ids@));
    }
    kept
}

/// The number of batches that `len` items make.
pub open spec fn batch_count(len: nat) -> nat {
    (len + BATCH_SIZE - 1) as nat / (BATCH_SIZE as nat)
}

/// The batch with the number `k`, counted from zero.
pub open spec fn batch_at<A>(items: Seq<A>, k: int) -> Seq<A> {
    items.subrange(
        k * BATCH_SIZE,
        if (k + 1) * BATCH_SIZE <= items.len() {
            (k + 1) * BATCH_SIZE
        } else {
            items.len() as int
        },
    )
}

/// `items` in consecutive batches: each but the last is full, and the last is
/// not empty.
pub open spec fn batches_of<A>(items: Seq<A>) -> Seq<Seq<A>> {
    Seq::new(batch_count(items.len()), |k: int| batch_at(items, k))
}

/// What a list of batches holds, batch by batch.
pub open spec fn contents_of<T>(batches: Seq<Vec<T>>) -> Seq<Seq<T>> {
    batches.map_values(|b: Vec<T>| b@)
}

/// Parts `items` into consecutive batches. No items make no batch.
pub fn batch<T>(items: Vec<T>) -> (r: Vec<Vec<T>>)
    ensures
        contents_of(r@) == batches_of(items@),
        r@.len() == batch_count(items@.len()),
{
    let ghost all = items@;
    let mut batches: Vec<Vec<T>> = Vec::new();
    let mut rest = items;
    while rest.len() > BATCH_SIZE
        invariant
            batches@.len() * BATCH_SIZE + rest@.len() == all.len(),
            rest@ == all.skip(batches@.len() * BATCH_SIZE),
            rest@.len() > 0 || batches@.len() == 0,
            forall|k: int| 0 <= k < batches@.len() ==> (#[trigger] batches@[k])@ == batch_at(all, k),
        decreases rest@.len(),
    {
        let tail = rest.split_off(BATCH_SIZE);
        proof {
            let k = batches@.len() as int;
            assert(rest@ =~= batch_at(all, k));
            assert(tail@ =~= all.skip((k + 1) * BATCH_SIZE));
        }
        batches.push(rest);
        rest = tail;
    }
    if rest.len() > 0 {
        proof {
            let k = batches@.len() as int;
            assert(rest@ =~= batch_at(all, k));
        }
        batches.push(rest);
    }
    proof {
        assert(batches@.len() == batch_count(all.len()));
        assert(contents_of(batches@) =~= batches_of(all));
    }
    batches
}

/// The batches of a sequence hold 50 items each, but for the last, which
/// holds what is left; put one after the other they give the sequence.
pub proof fn lemma_batches_cover<A>(items: Seq<A>, k: int)
    requires
        0 <= k < batch_count(items.len()),
    ensures
        0 < batch_at(items, k).len() <= BATCH_SIZE,
        k < batch_count(items.len()) - 1 ==> batch_at(items, k).len() == BATCH_SIZE,
        forall|i: int| 0 <= i < batch_at(items, k).len() ==> batch_at(items, k)[i] == items[k
            * BATCH_SIZE + i],
        batch_count(items.len()) * BATCH_SIZE >= items.len(),
{
}

/// The texts of `texts`, with a comma between each two.
pub open spec fn joined(texts: Seq<Seq<char>>) -> Seq<char>
    decreases texts.len(),
{
    if texts.len() == 0 {
        Seq::empty()
    } else if texts.len() == 1 {
        texts[0]
    } else {
        joined(texts.drop_last()) + seq![','] + texts.last()
    }
}

/// The identifiers of `ids` in one text, with a comma between each two.
pub fn join_ids<T>(ids: &Vec<StringId<T>>) -> (r: String)
    ensures
        r@ == joined(texts_of(ids@)),
{
    let mut text = String::new();
    let mut at: usize = 0;
    while at < ids.len()
        invariant
            at <= ids.len(),
            text@ == joined(texts_of(ids@).take(at as int)),
        decreases ids.len() - at,
    {
        proof {
            let done = texts_of(ids@).take(at as int + 1);
            assert(done.drop_last() =~= texts_of(ids@).take(at as int));
            assert(done.last() == ids@[at as int]@);
            reveal_strlit(",");
            assert(","@ =~= seq![',']);
            if at == 0 {
                assert(text@ + ids@[at as int]@ =~= ids@[at as int]@);
            }
        }
        if at > 0 {
            text.append(",");
        }
        text.append(ids[at].as_ref());
        at += 1;
    }
    proof {
        assert(texts_of(ids@).take(at as int) =~= texts_of(ids@));
    }
    text
}

/// What a list of texts says, text by text.
pub open spec fn strings_of(list: Seq<String>) -> Seq<Seq<char>> {
    list.map_values(|s: String| s@)
}

/// The `id` parameters of the detail requests for `ids`, in the order in which
/// the requests are to be sent: the identifiers without repetitions, in
/// batches, each batch joined by commas. No identifiers make no request.
pub fn detail_queries<T>(ids: Vec<StringId<T>>) -> (r: Vec<String>)
    ensures
        strings_of(r@) == batches_of(deduplicated(texts_of(ids@))).map_values(
            |b: Seq<Seq<char>>| joined(b),
        ),
        r@.len() == batch_count(deduplicated(texts_of(ids@)).len()),
{
    let unique = deduplicate(ids);
    let ghost items = unique@;
    let ghost texts = texts_of(unique@);
    let batches = batch(unique);
    let mut queries: Vec<String> = Vec::new();
    let mut at: usize = 0;
    while at < batches.len()
        invariant
            at <= batches.len(),
            contents_of(batches@) == batches_of(items),
            batches@.len() == batch_count(items.len()),
            texts == texts_of(items),
            queries@.len() == at,
            forall|k: int| 0 <= k < at ==> (#[trigger] queries@[k])@ == joined(batch_at(texts, k)),
        decreases batches.len() - at,
    {
        let query = join_ids(&batches[at]);
        proof {
            assert(contents_of(batches@)[at as int] == batch_at(items, at as int));
            assert(texts_of(batch_at(items, at as int)) =~= batch_at(texts, at as int));
        }
        queries.push(query);
        at += 1;
    }
    proof {
        assert(strings_of(queries@) =~= batches_of(texts).map_values(
            |b: Seq<Seq<char>>| joined(b),
        ));
    }
    queries
}

/// No two records have the same identifier.
pub open spec fn ids_distinct<R: Keyed>(records: Seq<R>) -> bool {
    distinct_by(records, |r: R| r.key())
}

/// `records` after `record` took the place of those with its identifier.
pub open spec fn with_record<R: Keyed>(records: Seq<R>, record: R) -> Seq<R> {
    records.filter(|r: R| r.key() != record.key()).push(record)
}

/// `records` after the records of `batch` were put into it one after the
/// other: of records with one identifier the last stays.
pub open spec fn with_records<R: Keyed>(records: Seq<R>, batch: Seq<R>) -> Seq<R>
    decreases batch.len(),
{
    if batch.len() == 0 {
        records
    } else {
        with_record(with_records(records, batch.drop_last()), batch.last())
    }
}

/// A record that is put leaves the identifiers distinct.
pub proof fn lemma_with_record_distinct<R: Keyed>(records: Seq<R>, record: R)
    requires
        ids_distinct(records),
    ensures
        ids_distinct(with_record(records, record)),
{
    let key = |r: R| r.key();
    let keep = |r: R| r.key() != record.key();
    let rest = records.filter(keep);
    lemma_filter_keeps_distinct(records, key, keep);
    assert forall|i: int| 0 <= i < rest.len() implies key(rest[i]) != key(record) by {
        records.lemma_filter_pred(keep, i);
    }
}

/// Records that are put leave the identifiers distinct.
pub proof fn lemma_with_records_distinct<R: Keyed>(records: Seq<R>, batch: Seq<R>)
    requires
        ids_distinct(records),
    ensures
        ids_distinct(with_records(records, batch)),
    decreases batch.len(),
{
    if batch.len() > 0 {
        lemma_with_records_distinct(records, batch.drop_last());
        lemma_with_record_distinct(with_records(records, batch.drop_last()), batch.last());
    }
}

/// Puts `record` into `records`, in place of those with its identifier.
pub fn put_record<R: Keyed>(records: Vec<R>, record: R) -> (r: Vec<R>)
    ensures
        r@ == with_record(records@, record),
        ids_distinct(records@) ==> ids_distinct(r@),
{
    let ghost others = |r: R| r.key() != record.key();
    let mut kept: Vec<R> = Vec::new();
    let mut at: usize = 0;
    proof {
        lemma_filter_empty(others);
        assert(records@.take(0) =~= Seq::<R>::empty());
        if ids_distinct(records@) {
            lemma_with_record_distinct(records@, record);
        }
    }
    while at < records.len()
        invariant
            at <= records.len(),
            others == |r: R| r.key() != record.key(),
            kept@ == records@.take(at as int).filter(others),
        decreases records.len() - at,
    {
        proof {
            lemma_filter_take_next(records@, others, at as int);
        }
        if !records[at].same_key(&record) {
            kept.push(records[at].copy());
        }
        at += 1;
    }
    proof {
        assert(records@.take(at as int) =~= records@);
    }
    kept.push(record);
    kept
}

/// Puts the records of `batch` into `records` one after the other: of records
/// with one identifier the last stays.
pub fn gather<R: Keyed>(records: Vec<R>, batch: Vec<R>) -> (r: Vec<R>)
    ensures
        r@ == with_records(records@, batch@),
        ids_distinct(records@) ==> ids_distinct(r@),
{
    let mut gathered = records;
    let mut at: usize = 0;
    while at < batch.len()
        invariant
            at <= batch.len(),
            gathered@ == with_records(records@, batch@.take(at as int)),
        decreases batch.len() - at,
    {
        proof {
            let done = batch@.take(at as int + 1);
            assert(done.drop_last() =~= batch@.take(at as int));
        }
        gathered = put_record(gathered, batch[at].copy());
        at += 1;
    }
    proof {
        assert(batch@.take(at as int) =~= batch@);
        if ids_distinct(records@) {
            lemma_with_records_distinct(records@, batch@);
        }
    }
    gathered
}

/// The records after a detail response was taken in.
pub open spec fn details_after(
    records: Seq<VideoInfo>,
    status: u16,
    body: Option<Vec<VideoInfo>>,
) -> Result<Seq<VideoInfo>, RequestError> {
    match kind_of(status) {
        ResponseKind::Fresh => match body {
            Some(batch) => Ok(with_records(records, batch@)),
            None => Err(RequestError::DataParse),
        },
        ResponseKind::NotModified => Ok(records),
        ResponseKind::QuotaExhausted => Err(RequestError::QuotaExhausted),
        ResponseKind::Unknown => Err(RequestError::UnknownStatus(status)),
    }
}

/// Takes in the response to a detail request: its status and, for a response
/// with content, the records that could be read of it. The records are put
/// into `records` by identifier. A response that nothing changed brings
/// nothing; a used-up quota, an unknown status and content that could not be
/// read are fatal.
pub fn absorb_details(records: Vec<VideoInfo>, status: u16, body: Option<Vec<VideoInfo>>) -> (r:
    Result<Vec<VideoInfo>, RequestError>)
    ensures
        match r {
            Ok(gathered) => details_after(records@, status, body) == Ok::<
                Seq<VideoInfo>,
                RequestError,
            >(gathered@),
            Err(e) => details_after(records@, status, body) == Err::<Seq<VideoInfo>, RequestError>(
                e,
            ),
        },
        ids_distinct(records@) ==> (r matches Ok(gathered) ==> ids_distinct(gathered@)),
{
    match classify(status) {
        ResponseKind::Fresh => match body {
            Some(batch) => Ok(gather(records, batch)),
            None => Err(RequestError::DataParse),
        },
        ResponseKind::NotModified => Ok(records),
        ResponseKind::QuotaExhausted => Err(RequestError::QuotaExhausted),
        ResponseKind::Unknown => Err(RequestError::UnknownStatus(status)),
    }
}

/// The state of the second stage.
pub struct DetailView {
    /// The `id` parameters of the requests, in the order in which they are
    /// sent.
    pub queries: Seq<Seq<char>>,
    /// How many of the requests were handed out.
    pub asked: nat,
    /// A request is under way.
    pub waiting: bool,
    /// What the responses brought, by identifier.
    pub records: Seq<VideoInfo>,
    /// The fatal condition that was met.
    pub failure: Option<RequestError>,
}

impl DetailView {
    /// A request is under way only after one was handed out, and none is once a
    /// fatal condition was met; no two records have the same identifier.
    pub open spec fn valid(self) -> bool {
        &&& self.asked <= self.queries.len()
        &&& self.waiting ==> self.asked >= 1 && self.failure is None
        &&& ids_distinct(self.records)
    }

    /// A request may be handed out: none is under way, nothing fatal was met,
    /// and one is left.
    pub open spec fn may_ask(self) -> bool {
        &&& !self.waiting
        &&& self.failure is None
        &&& self.asked < self.queries.len()
    }

    /// The state after the next request was handed out.
    pub open spec fn ask(self) -> Self {
        DetailView { asked: self.asked + 1, waiting: true, ..self }
    }

    /// No request is under way and none will be handed out.
    pub open spec fn done(self) -> bool {
        &&& !self.waiting
        &&& (self.failure is Some || self.asked == self.queries.len())
    }

    /// The state after the response to the request under way was taken in.
    /// A fatal response ends the stage, and what was gathered is given up.
    pub open spec fn absorb(self, status: u16, body: Option<Vec<VideoInfo>>) -> Self {
        match details_after(self.records, status, body) {
            Ok(gathered) => DetailView { waiting: false, records: gathered, ..self },
            Err(e) => DetailView {
                waiting: false,
                records: Seq::empty(),
                failure: Some(e),
                ..self
            },
        }
    }

    /// The state after the request under way could not be sent, or no
    /// response came.
    pub open spec fn give_up(self) -> Self {
        DetailView {
            waiting: false,
            records: Seq::empty(),
            failure: Some(RequestError::HttpGet),
            ..self
        }
    }

    /// What the stage came to, once it is done.
    pub open spec fn outcome(self) -> Result<Seq<VideoInfo>, RequestError> {
        match self.failure {
            Some(e) => Err(e),
            None => Ok(self.records),
        }
    }
}

/// The second stage: the detail requests for the identifiers that were found,
/// handed out one after the other, each only when the one before has come to
/// its end, and none once a fatal condition was met.
pub struct DetailStage {
    queries: Vec<String>,
    asked: usize,
    waiting: bool,
    records: Vec<VideoInfo>,
    failure: Option<RequestError>,
}

impl View for DetailStage {
    type V = DetailView;

    closed spec fn view(&self) -> DetailView {
        DetailView {
            queries: strings_of(self.queries@),
            asked: self.asked as nat,
            waiting: self.waiting,
            records: self.records@,
            failure: self.failure,
        }
    }
}

impl DetailStage {
    #[verifier::type_invariant]
    closed spec fn one_at_a_time(&self) -> bool {
        self@.valid()
    }

    /// The stage that asks for the details of `ids`.
    pub fn new<T>(ids: Vec<StringId<T>>) -> (r: DetailStage)
        ensures
            r@ == (DetailView {
                queries: batches_of(deduplicated(texts_of(ids@))).map_values(
                    |b: Seq<Seq<char>>| joined(b),
                ),
                asked: 0,
                waiting: false,
                records: Seq::<VideoInfo>::empty(),
                failure: None,
            }),
            r@.valid(),
    {
        DetailStage {
            queries: detail_queries(ids),
            asked: 0,
            waiting: false,
            records: Vec::new(),
            failure: None,
        }
    }

    /// Hands out the `id` parameter of the next request, if one may be handed
    /// out.
    pub fn next_request(&mut self) -> (r: Option<String>)
        ensures
            final(self)@.valid(),
            match r {
                Some(query) => {
                    &&& old(self)@.may_ask()
                    &&& final(self)@ == old(self)@.ask()
                    &&& query@ == old(self)@.queries[old(self)@.asked as int]
                },
                None => !old(self)@.may_ask() && final(self)@ == old(self)@,
            },
    {
        proof {
            use_type_invariant(&*self);
        }
        if self.waiting || self.failure.is_some() || self.asked >= self.queries.len() {
            return None;
        }
        let query = self.queries[self.asked].clone();
        self.asked = self.asked + 1;
        self.waiting = true;
        Some(query)
    }

    /// Takes in the response to the request under way: its status and, for a
    /// response with content, the records that could be read of it. `false`
    /// where no request is under way; nothing changes then.
    pub fn complete(&mut self, status: u16, body: Option<Vec<VideoInfo>>) -> (r: bool)
        ensures
            final(self)@.valid(),
            r == old(self)@.waiting,
            r ==> final(self)@ == old(self)@.absorb(status, body),
            !r ==> final(self)@ == old(self)@,
    {
        proof {
            use_type_invariant(&*self);
        }
        if !self.waiting {
            return false;
        }
        let mut records = Vec::new();
        self.waiting = false;
        std::mem::swap(&mut records, &mut self.records);
        match absorb_details(records, status, body) {
            Ok(gathered) => {
                self.records = gathered;
            },
            Err(e) => {
                self.failure = Some(e);
            },
        }
        true
    }

    /// Takes in that the request under way could not be sent, or that no
    /// response came: a fatal condition. `false` where no request is under
    /// way; nothing changes then.
    pub fn fail_transport(&mut self) -> (r: bool)
        ensures
            final(self)@.valid(),
            r == old(self)@.waiting,
            r ==> final(self)@ == old(self)@.give_up(),
            !r ==> final(self)@ == old(self)@,
    {
        proof {
            use_type_invariant(&*self);
        }
        if !self.waiting {
            return false;
        }
        self.waiting = false;
        self.records = Vec::new();
        self.failure = Some(RequestError::HttpGet);
        true
    }

    /// Whether no request is under way and none will be handed out.
    pub fn is_done(&self) -> (r: bool)
        ensures
            r == self@.done(),
    {
        proof {
            use_type_invariant(self);
        }
        !self.waiting && (self.failure.is_some() || self.asked == self.queries.len())
    }

    /// Ends the stage. While a request is under way or left to hand out there
    /// is no result; after that, the fatal condition, or else the records
    /// that the responses brought.
    pub fn finish(self) -> (r: Option<Result<Vec<VideoInfo>, RequestError>>)
        ensures
            match r {
                Some(Ok(records)) => self@.done() && self@.outcome() == Ok::<
                    Seq<VideoInfo>,
                    RequestError,
                >(records@) && ids_distinct(records@),
                Some(Err(e)) => self@.done() && self@.outcome() == Err::<
                    Seq<VideoInfo>,
                    RequestError,
                >(e),
                None => !self@.done(),
            },
    {
        proof {
            use_type_invariant(&self);
        }
        if !self.is_done() {
            return None;
        }
        match self.failure {
            Some(e) => Some(Err(e)),
            None => Some(Ok(self.records)),
        }
    }
}

/// At most one detail request is under way, and a stage that is not done can
/// go on: a request can be handed out, or one is under way.
pub proof fn lemma_details_go_one_by_one(stage: DetailView)
    requires
        stage.valid(),
    ensures
        stage.may_ask() ==> !stage.waiting && stage.ask().valid() && !stage.ask().may_ask(),
        !stage.done() ==> stage.may_ask() || stage.waiting,
        stage.failure is Some ==> !stage.may_ask(),
{
}

/// What is handed back to a valid stage leaves it valid, with no request
/// under way and as many handed out as before.
pub proof fn lemma_detail_response_keeps_valid(
    stage: DetailView,
    status: u16,
    body: Option<Vec<VideoInfo>>,
)
    requires
        stage.valid(),
    ensures
        stage.absorb(status, body).valid(),
        stage.give_up().valid(),
        !stage.absorb(status, body).waiting,
        stage.absorb(status, body).asked == stage.asked,
        stage.absorb(status, body).queries == stage.queries,
{
    if let Some(batch) = body {
        lemma_with_records_distinct(stage.records, batch@);
    }
}

/// A fatal detail response ends the stage: whatever the state was, after it no
/// request is handed out.
pub proof fn lemma_fatal_detail_ends_stage(
    stage: DetailView,
    status: u16,
    body: Option<Vec<VideoInfo>>,
)
    requires
        status != 200 && status != 304 || body is None && status == 200,
    ensures
        stage.absorb(status, body).failure is Some,
        !stage.absorb(status, body).may_ask(),
        stage.absorb(status, body).done(),
{
}

} // verus!
