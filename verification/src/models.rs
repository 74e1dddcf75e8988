//! The roster: affiliations, the people who belong to them and their channels.

use crate::entry::transport::salmon::{Affiliation, Liver};
use crate::ids::{texts_of, NumId, StringId};
use vstd::prelude::*;

verus! {

/// Why a description file gave no value.
#[derive(Debug, Clone, Copy, PartialEq, Eq, Hash)]
pub enum ExternalFileLoadError {
    /// The file could not be opened.
    CannotOpen,
    /// What the file holds is no description.
    CannotDeserialize,
}

impl ExternalFileLoadError {
    /// The text that reports the error.
    pub fn message(&self) -> (r: &'static str)
        ensures
            r@ == match self {
                ExternalFileLoadError::CannotOpen => "cannot open"@,
                ExternalFileLoadError::CannotDeserialize => "cannot deserialize"@,
            },
    {
        match self {
            ExternalFileLoadError::CannotOpen => "cannot open",
            ExternalFileLoadError::CannotDeserialize => "cannot deserialize",
        }
    }
}

/// What an `AffiliationEntry` says.
pub struct AffiliationEntryView {
    pub id: i64,
    pub name: Seq<char>,
}

/// A group that people belong to.
#[derive(Debug, PartialEq, Eq, Hash)]
pub struct AffiliationEntry {
    id: NumId<Affiliation>,
    name: String,
}

impl View for AffiliationEntry {
    type V = AffiliationEntryView;

    closed spec fn view(&self) -> AffiliationEntryView {
        AffiliationEntryView { id: self.id@, name: self.name@ }
    }
}

impl Clone for AffiliationEntry {
    fn clone(&self) -> (r: Self)
        ensures
            r == *self,
    {
        AffiliationEntry { id: self.id, name: self.name.clone() }
    }
}

impl AffiliationEntry {
    /// The affiliation with this identifier and name.
    pub fn new(id: NumId<Affiliation>, name: &str) -> (r: AffiliationEntry)
        ensures
            r@ == (AffiliationEntryView { id: id@, name: name@ }),
    {
        AffiliationEntry { id, name: name.to_owned() }
    }

    /// The identifier of the affiliation.
    pub fn as_ref_id(&self) -> (r: &NumId<Affiliation>)
        ensures
            r@ == self@.id,
    {
        &self.id
    }

    /// The name of the affiliation.
    pub fn as_ref_name(&self) -> (r: &str)
        ensures
            r@ == self@.name,
    {
        self.name.as_str()
    }

    /// A copy of the identifier of the affiliation.
    pub fn breach_extraction_id(&self) -> (r: NumId<Affiliation>)
        ensures
            r@ == self@.id,
    {
        self.id
    }

    /// A copy of the name.
    pub fn breach_extraction_name(&self) -> (r: String)
        ensures
            r@ == self@.name,
    {
        self.name.clone()
    }
}

/// A channel of a person on some platform.
#[derive(Debug, PartialEq, Eq, Hash)]
pub enum Channel {
    /// A channel on the supported platform.
    Youtube { id: StringId<Channel> },
    /// A channel on any other platform.
    Unsupported,
}

impl Clone for Channel {
    fn clone(&self) -> (r: Self)
        ensures
            r == *self,
    {
        match self {
            Channel::Youtube { id } => Channel::Youtube { id: id.clone() },
            Channel::Unsupported => Channel::Unsupported,
        }
    }
}

impl Channel {
    /// The channel's identifier where the channel is on the supported platform.
    pub open spec fn youtube_id(&self) -> Option<Seq<char>> {
        match self {
            Channel::Youtube { id } => Some(id@),
            Channel::Unsupported => None,
        }
    }

    /// The channel's identifier where the channel is on the supported platform.
    pub fn as_youtube_id(&self) -> (r: Option<StringId<Channel>>)
        ensures
            match r {
                Some(id) => self.youtube_id() == Some(id@),
                None => self.youtube_id() is None,
            },
    {
        match self {
            Channel::Youtube { id } => Some(id.clone()),
            Channel::Unsupported => None,
        }
    }
}

/// The identifiers of those of `channels` that are on the supported platform,
/// in their order.
pub open spec fn youtube_ids(channels: Seq<Channel>) -> Seq<Seq<char>> {
    channels.filter_map(|c: Channel| c.youtube_id())
}

/// What a `LiverEntry` says.
pub struct LiverEntryView {
    pub id: i64,
    pub name: Seq<char>,
    pub localized_name: Seq<char>,
    pub twitter_url: Seq<char>,
    pub channels: Seq<Channel>,
}

/// A person, with the channels that this person runs.
#[derive(Debug, PartialEq, Eq, Hash)]
pub struct LiverEntry {
    id: NumId<Liver>,
    name: String,
    localized_name: String,
    twitter_url: String,
    channels: Vec<Channel>,
}

impl View for LiverEntry {
    type V = LiverEntryView;

    closed spec fn view(&self) -> LiverEntryView {
        LiverEntryView {
            id: self.id@,
            name: self.name@,
            localized_name: self.localized_name@,
            twitter_url: self.twitter_url@,
            channels: self.channels@,
        }
    }
}

impl Clone for LiverEntry {
    fn clone(&self) -> (r: Self)
        ensures
            r@ == self@,
    {
        LiverEntry {
            id: self.id,
            name: self.name.clone(),
            localized_name: self.localized_name.clone(),
            twitter_url: self.twitter_url.clone(),
            channels: self.channels.clone(),
        }
    }
}

impl LiverEntry {
    /// The person with these fields.
    pub fn new(
        id: NumId<Liver>,
        name: &str,
        localized_name: &str,
        twitter_url: &str,
        channels: Vec<Channel>,
    ) -> (r: LiverEntry)
        ensures
            r@ == (LiverEntryView {
                id: id@,
                name: name@,
                localized_name: localized_name@,
                twitter_url: twitter_url@,
                channels: channels@,
            }),
    {
        LiverEntry {
            id,
            name: name.to_owned(),
            localized_name: localized_name.to_owned(),
            twitter_url: twitter_url.to_owned(),
            channels,
        }
    }

    /// The identifier of the person.
    pub fn as_ref_id(&self) -> (r: &NumId<Liver>)
        ensures
            r@ == self@.id,
    {
        &self.id
    }

    /// The channels of the person.
    pub fn as_ref_site(&self) -> (r: &Vec<Channel>)
        ensures
            r@ == self@.channels,
    {
        &self.channels
    }

    /// A copy of the identifier of the person.
    pub fn breach_extraction_id(&self) -> (r: NumId<Liver>)
        ensures
            r@ == self@.id,
    {
        self.id
    }

    /// A copy of the name.
    pub fn breach_extraction_name(&self) -> (r: String)
        ensures
            r@ == self@.name,
    {
        self.name.clone()
    }

    /// A copy of the identifier of the person.
    pub fn get_id(&self) -> (r: NumId<Liver>)
        ensures
            r@ == self@.id,
    {
        self.id
    }

    /// A copy of the channels of the person.
    pub fn get_site(&self) -> (r: Vec<Channel>)
        ensures
            r@ == self@.channels,
    {
        self.channels.clone()
    }

    /// The identifiers of this person's channels on the supported platform.
    pub fn youtube_channels(&self) -> (r: Vec<StringId<Channel>>)
        ensures
            texts_of(r@) == youtube_ids(self@.channels),
    {
        let mut found: Vec<StringId<Channel>> = Vec::new();
        let mut at: usize = 0;
        while at < self.channels.len()
            invariant
                at <= self.channels.len(),
                texts_of(found@) == youtube_ids(self.channels@.take(at as int)),
            decreases self.channels.len() - at,
        {
            proof {
                let done = self.channels@.take(at as int + 1);
                assert(done.drop_last() =~= self.channels@.take(at as int));
                assert(done.last() == self.channels@[at as int]);
            }
            if let Some(id) = self.channels[at].as_youtube_id() {
                proof {
                    assert(texts_of(found@.push(id)) =~= texts_of(found@) + seq![id@]);
                }
                found.push(id);
            }
            at += 1;
        }
        proof {
            assert(self.channels@.take(at as int) =~= self.channels@);
        }
        found
    }

    /// Whether one of this person's channels on the supported platform has the
    /// identifier `id`.
    pub fn runs_channel(&self, id: &str) -> (r: bool)
        ensures
            r == youtube_ids(self@.channels).contains(id@),
    {
        let wanted = id.to_owned();
        let own = self.youtube_channels();
        let mut at: usize = 0;
        while at < own.len()
            invariant
                at <= own.len(),
                wanted@ == id@,
                texts_of(own@) == youtube_ids(self@.channels),
                forall|i: int| 0 <= i < at ==> texts_of(own@)[i] != id@,
            decreases own.len() - at,
        {
            if own[at].same_text(&wanted) {
                proof {
                    assert(texts_of(own@)[at as int] == id@);
                }
                return true;
            }
            at += 1;
        }
        false
    }
}

/// The identifiers of the channels that the people of `livers` run on the
/// supported platform: person by person, each person's in their order.
pub open spec fn roster_ids(livers: Seq<LiverEntryView>) -> Seq<Seq<char>>
    decreases livers.len(),
{
    if livers.len() == 0 {
        Seq::empty()
    } else {
        roster_ids(livers.drop_last()) + youtube_ids(livers.last().channels)
    }
}

/// What a list of people says, person by person.
pub open spec fn livers_of(list: Seq<LiverEntry>) -> Seq<LiverEntryView> {
    list.map_values(|l: LiverEntry| l@)
}

/// The roster of a list of people: the channels to poll.
pub fn roster_of(livers: &Vec<LiverEntry>) -> (r: Vec<StringId<Channel>>)
    ensures
        texts_of(r@) == roster_ids(livers_of(livers@)),
{
    let mut roster: Vec<StringId<Channel>> = Vec::new();
    let mut at: usize = 0;
    while at < livers.len()
        invariant
            at <= livers.len(),
            texts_of(roster@) == roster_ids(livers_of(livers@).take(at as int)),
        decreases livers.len() - at,
    {
        let mut own = livers[at].youtube_channels();
        proof {
            let done = livers_of(livers@).take(at as int + 1);
            assert(done.drop_last() =~= livers_of(livers@).take(at as int));
            assert(done.last() == livers@[at as int]@);
            assert(texts_of(roster@ + own@) =~= texts_of(roster@) + texts_of(own@));
        }
        roster.append(&mut own);
        at += 1;
    }
    proof {
        assert(livers_of(livers@).take(at as int) =~= livers_of(livers@));
    }
    roster
}

} // verus!
