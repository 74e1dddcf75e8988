//! One polling cycle, from the roster to the records handed to the storage service.

pub mod batch;
pub mod cache;
pub mod config;
pub mod engine;
pub mod filter;
pub mod protocol;
pub mod request;
pub mod transport;

use crate::clock::Moment;
use crate::entry::filter::{filter_upcoming, retained_of};
use crate::entry::request::{ChannelInfo, VideoInfo};
use crate::entry::transport::salmon::{Affiliation, Channel, Live, Liver};
use crate::entry::transport::{Applier, UpdateSignature};
use crate::models::{livers_of, youtube_ids, AffiliationEntry, LiverEntry, LiverEntryView};
use crate::text::{ends_with, is_ending};
use vstd::prelude::*;

verus! {

/// Whether a file of this name holds a description.
pub fn is_json(name: &str) -> (r: bool)
    ensures
        r == is_ending(name@, ".json"@),
{
    ends_with(name, ".json")
}

/// Whether a file of this name is passed over: its name ends with `ignore`.
pub fn is_ignored_file(name: &str, ignore: &str) -> (r: bool)
    ensures
        r == is_ending(name@, ignore@),
{
    ends_with(name, ignore)
}

/// Whether a file of this name in the directory of the affiliation
/// `affiliation` describes a person: it holds a description, and its name does
/// not end with the name of the affiliation.
pub fn is_liver_file(name: &str, affiliation: &str) -> (r: bool)
    ensures
        r == (is_ending(name@, ".json"@) && !is_ending(name@, affiliation@)),
{
    is_json(name) && !is_ignored_file(name, affiliation)
}

/// An affiliation with the people who belong to it.
#[derive(Debug, PartialEq, Eq, Hash)]
pub struct AffiliationUnit {
    pub affiliation: AffiliationEntry,
    pub livers: Vec<LiverEntry>,
}

/// The messages for the affiliations of `units`, in their order, each marked
/// with `signature`.
pub fn affiliation_messages(units: &Vec<AffiliationUnit>, signature: UpdateSignature) -> (r: Vec<
    Affiliation,
>)
    ensures
        r@.len() == units@.len(),
        forall|k: int|
            0 <= k < r@.len() ==> (#[trigger] r@[k]).describes(
                units@[k].affiliation@,
                signature.0,
            ),
{
    let mut messages: Vec<Affiliation> = Vec::new();
    let mut at: usize = 0;
    while at < units.len()
        invariant
            at <= units.len(),
            messages@.len() == at,
            forall|k: int|
                0 <= k < at ==> (#[trigger] messages@[k]).describes(
                    units@[k].affiliation@,
                    signature.0,
                ),
        decreases units.len() - at,
    {
        messages.push(Affiliation::from_entry(units[at].affiliation.clone(), signature));
        at += 1;
    }
    messages
}

/// A person and the affiliation to which the person belongs.
pub struct LiverSlot {
    pub liver: LiverEntryView,
    pub affiliation: i64,
}

/// The people of `unit`, each with the affiliation of the unit.
pub open spec fn slots_of_unit(unit: AffiliationUnit) -> Seq<LiverSlot> {
    livers_of(unit.livers@).map_values(
        |liver: LiverEntryView| LiverSlot { liver, affiliation: unit.affiliation@.id },
    )
}

/// The people of `units` with their affiliations, unit by unit.
pub open spec fn slots_of(units: Seq<AffiliationUnit>) -> Seq<LiverSlot>
    decreases units.len(),
{
    if units.len() == 0 {
        Seq::empty()
    } else {
        slots_of(units.drop_last()) + slots_of_unit(units.last())
    }
}

/// Each message is the one for the person at its place, tied to the
/// affiliation of that person and marked with `signature`.
pub open spec fn describe_livers(messages: Seq<Liver>, slots: Seq<LiverSlot>, signature: i64) -> bool {
    &&& messages.len() == slots.len()
    &&& forall|k: int|
        0 <= k < messages.len() ==> (#[trigger] messages[k]).describes(
            slots[k].liver,
            Some(slots[k].affiliation),
            signature,
        )
}

/// The messages for the people of `units`, unit by unit, each tied to the
/// affiliation of its unit and marked with `signature`.
pub fn liver_messages(units: &Vec<AffiliationUnit>, signature: UpdateSignature) -> (r: Vec<Liver>)
    ensures
        describe_livers(r@, slots_of(units@), signature.0),
{
    let mut messages: Vec<Liver> = Vec::new();
    let mut at: usize = 0;
    while at < units.len()
        invariant
            at <= units.len(),
            describe_livers(messages@, slots_of(units@.take(at as int)), signature.0),
        decreases units.len() - at,
    {
        let unit = &units[at];
        let ghost before = slots_of(units@.take(at as int));
        proof {
            let done = units@.take(at as int + 1);
            assert(done.drop_last() =~= units@.take(at as int));
            assert(done.last() == units@[at as int]);
        }
        let mut k: usize = 0;
        while k < unit.livers.len()
            invariant
                k <= unit.livers.len(),
                describe_livers(
                    messages@,
                    before + slots_of_unit(*unit).take(k as int),
                    signature.0,
                ),
            decreases unit.livers.len() - k,
        {
            let message = Liver::from_entry(unit.livers[k].clone(), signature).apply(
                &unit.affiliation,
            );
            proof {
                let slots = before + slots_of_unit(*unit).take(k as int);
                let more = before + slots_of_unit(*unit).take(k as int + 1);
                assert(more =~= slots.push(slots_of_unit(*unit)[k as int]));
            }
            messages.push(message);
            k += 1;
        }
        proof {
            assert(slots_of_unit(*unit).take(k as int) =~= slots_of_unit(*unit));
        }
        at += 1;
    }
    proof {
        assert(units@.take(at as int) =~= units@);
    }
    messages
}

/// The person runs the channel on the supported platform.
pub open spec fn runs(liver: LiverEntryView, channel: Seq<char>) -> bool {
    youtube_ids(liver.channels).contains(channel)
}

/// The person at `at` is the first of `livers` who runs the channel.
pub open spec fn is_owner_at(livers: Seq<LiverEntryView>, channel: Seq<char>, at: int) -> bool {
    &&& 0 <= at < livers.len()
    &&& runs(livers[at], channel)
    &&& forall|i: int| 0 <= i < at ==> !runs(#[trigger] livers[i], channel)
}

/// None of `livers` runs the channel.
pub open spec fn nobody_runs(livers: Seq<LiverEntryView>, channel: Seq<char>) -> bool {
    forall|i: int| 0 <= i < livers.len() ==> !runs(#[trigger] livers[i], channel)
}

/// The place of the first of `livers` who runs the channel, if one does.
pub fn find_owner(livers: &Vec<LiverEntry>, channel: &str) -> (r: Option<usize>)
    ensures
        match r {
            Some(at) => is_owner_at(livers_of(livers@), channel@, at as int),
            None => nobody_runs(livers_of(livers@), channel@),
        },
{
    let mut at: usize = 0;
    while at < livers.len()
        invariant
            at <= livers.len(),
            forall|i: int| 0 <= i < at ==> !runs(#[trigger] livers_of(livers@)[i], channel@),
        decreases livers.len() - at,
    {
        if livers[at].runs_channel(channel) {
            return Some(at);
        }
        at += 1;
    }
    None
}

/// The message is the one for `info`, tied to the first of `livers` who runs
/// the channel and marked with `signature`.
pub open spec fn describes_owned(
    message: Channel,
    info: ChannelInfo,
    livers: Seq<LiverEntryView>,
    signature: i64,
) -> bool {
    exists|at: int|
        #[trigger] is_owner_at(livers, info.id@, at) && message.describes(
            info,
            Some(livers[at].id),
            signature,
        )
}

/// The messages for the channels of `infos`, in their order, each tied to the
/// first of `livers` who runs the channel and marked with `signature`. There
/// are none where nobody runs one of the channels.
pub fn channel_messages(
    infos: &Vec<ChannelInfo>,
    livers: &Vec<LiverEntry>,
    signature: UpdateSignature,
) -> (r: Option<Vec<Channel>>)
    ensures
        match r {
            Some(messages) => {
                &&& messages@.len() == infos@.len()
                &&& forall|k: int|
                    0 <= k < messages@.len() ==> describes_owned(
                        #[trigger] messages@[k],
                        infos@[k],
                        livers_of(livers@),
                        signature.0,
                    )
            },
            None => exists|k: int|
                0 <= k < infos@.len() && nobody_runs(
                    livers_of(livers@),
                    (#[trigger] infos@[k]).id@,
                ),
        },
{
    let mut messages: Vec<Channel> = Vec::new();
    let mut at: usize = 0;
    while at < infos.len()
        invariant
            at <= infos.len(),
            messages@.len() == at,
            forall|k: int|
                0 <= k < at ==> describes_owned(
                    #[trigger] messages@[k],
                    infos@[k],
                    livers_of(livers@),
                    signature.0,
                ),
        decreases infos.len() - at,
    {
        match find_owner(livers, infos[at].id.as_ref()) {
            Some(owner) => {
                let message = Channel::from_info(infos[at].clone(), signature).apply(
                    &livers[owner],
                );
                proof {
                    assert(is_owner_at(livers_of(livers@), infos@[at as int].id@, owner as int));
                    assert(message.describes(
                        infos@[at as int],
                        Some(livers_of(livers@)[owner as int].id),
                        signature.0,
                    ));
                    assert(describes_owned(
                        message,
                        infos@[at as int],
                        livers_of(livers@),
                        signature.0,
                    ));
                }
                messages.push(message);
            },
            None => {
                return None;
            },
        }
        at += 1;
    }
    Some(messages)
}

/// The messages for those of `videos` that are handed on at the moment `now`,
/// in their order, each marked as made at `now`.
pub fn live_messages(videos: &Vec<VideoInfo>, now: &Moment) -> (r: Vec<Live>)
    ensures
        r@.len() == retained_of(videos@, now@).len(),
        forall|k: int|
            0 <= k < r@.len() ==> (#[trigger] r@[k]).describes(
                retained_of(videos@, now@)[k],
                now@,
            ),
{
    let kept = filter_upcoming(videos, now);
    let mut messages: Vec<Live> = Vec::new();
    let mut at: usize = 0;
    while at < kept.len()
        invariant
            at <= kept.len(),
            messages@.len() == at,
            forall|k: int| 0 <= k < at ==> (#[trigger] messages@[k]).describes(kept@[k], now@),
        decreases kept.len() - at,
    {
        messages.push(Live::from_video(kept[at].clone(), now));
        at += 1;
    }
    messages
}

} // verus!
