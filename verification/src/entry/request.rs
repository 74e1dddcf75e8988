//! What the platform answers, and the engine that asks.

pub use crate::entry::cache::Etag;

use crate::clock::{Moment, MomentView};
use crate::entry::transport::salmon::Live;
use crate::ids::{texts_of, StringId};
use crate::models::Channel;
use vstd::prelude::*;

verus! {

/// Why a cycle was given up.
#[derive(Debug, Clone, Copy, PartialEq, Eq, Hash)]
pub enum RequestError {
    /// A request could not be sent, or no response came.
    HttpGet,
    /// A response with content could not be read.
    DataParse,
    /// The platform answered that the quota is used up.
    QuotaExhausted,
    /// The platform answered with a status that the protocol does not know.
    UnknownStatus(u16),
}

impl RequestError {
    /// The text that reports the error.
    pub fn message(&self) -> (r: &'static str)
        ensures
            r@ == match self {
                RequestError::HttpGet => "failed get http request."@,
                RequestError::DataParse => "cannot parse. this data structure is wrong."@,
                RequestError::QuotaExhausted => "Resource Exhausted, Quota Limit exceeded!"@,
                RequestError::UnknownStatus(_) => "unknown error code."@,
            },
    {
        match self {
            RequestError::HttpGet => "failed get http request.",
            RequestError::DataParse => "cannot parse. this data structure is wrong.",
            RequestError::QuotaExhausted => "Resource Exhausted, Quota Limit exceeded!",
            RequestError::UnknownStatus(_) => "unknown error code.",
        }
    }
}

/// A record that is told from others by its identifier.
pub trait Keyed: Sized {
    /// The identifier of the record.
    spec fn key(&self) -> Seq<char>;

    /// Whether both records have the same identifier.
    fn same_key(&self, other: &Self) -> (r: bool)
        ensures
            r == (self.key() == other.key()),
    ;

    /// A copy of the record.
    fn copy(&self) -> (r: Self)
        ensures
            r == *self,
    ;
}

/// A text of a record.
#[derive(Debug, PartialEq, Eq, Hash)]
pub struct TextComponent(pub String);

impl Clone for TextComponent {
    fn clone(&self) -> (r: Self)
        ensures
            r == *self,
    {
        TextComponent(self.0.clone())
    }
}

impl TextComponent {
    /// The text that reads `s`.
    pub fn from_str(s: &str) -> (r: TextComponent)
        ensures
            r.0@ == s@,
    {
        TextComponent(s.to_owned())
    }
}

/// How a video was received by its audience.
#[derive(Debug, Clone, Copy, PartialEq, Eq, Hash)]
pub struct Statistics {
    pub view_count: i64,
    pub like_count: i64,
    pub favorite_count: i64,
    pub comment_count: i64,
}

/// When a broadcast is to start, started and ended, as far as it did.
#[derive(Debug, PartialEq, Eq, Hash)]
pub struct LiveStreamingDetails {
    pub actual_start_time: Option<Moment>,
    pub actual_end_time: Option<Moment>,
    pub scheduled_start_time: Option<Moment>,
    pub active_live_chat_id: Option<String>,
}

impl Clone for LiveStreamingDetails {
    fn clone(&self) -> (r: Self)
        ensures
            r == *self,
    {
        LiveStreamingDetails {
            actual_start_time: self.actual_start_time,
            actual_end_time: self.actual_end_time,
            scheduled_start_time: self.scheduled_start_time,
            active_live_chat_id: match &self.active_live_chat_id {
                Some(id) => Some(id.clone()),
                None => None,
            },
        }
    }
}

impl LiveStreamingDetails {
    /// When the broadcast is to start, if it is scheduled.
    pub fn as_ref_scheduled_start_time_optional(&self) -> (r: &Option<Moment>)
        ensures
            *r == self.scheduled_start_time,
    {
        &self.scheduled_start_time
    }

    /// When the broadcast started, if it did.
    pub fn as_ref_actual_start_time_optional(&self) -> (r: &Option<Moment>)
        ensures
            *r == self.actual_start_time,
    {
        &self.actual_start_time
    }

    /// When the broadcast ended, if it did.
    pub fn as_ref_actual_end_time_optional(&self) -> (r: &Option<Moment>)
        ensures
            *r == self.actual_end_time,
    {
        &self.actual_end_time
    }
}

/// What a video says of itself.
#[derive(Debug, PartialEq, Eq, Hash)]
pub struct VideoInfoSnippet {
    pub published_at: Moment,
    pub channel_id: StringId<Channel>,
    pub title: TextComponent,
    pub description: TextComponent,
    pub channel_title: String,
}

impl Clone for VideoInfoSnippet {
    fn clone(&self) -> (r: Self)
        ensures
            r == *self,
    {
        VideoInfoSnippet {
            published_at: self.published_at,
            channel_id: self.channel_id.clone(),
            title: self.title.clone(),
            description: self.description.clone(),
            channel_title: self.channel_title.clone(),
        }
    }
}

impl VideoInfoSnippet {
    /// The channel that published the video.
    pub fn as_ref_dependency_channel_id(&self) -> (r: &StringId<Channel>)
        ensures
            *r == self.channel_id,
    {
        &self.channel_id
    }

    /// When it was published.
    pub fn as_ref_published_at(&self) -> (r: &Moment)
        ensures
            *r == self.published_at,
    {
        &self.published_at
    }
}

/// The record of a video.
#[derive(Debug, PartialEq, Eq, Hash)]
pub struct VideoInfo {
    pub id: StringId<Live>,
    pub snippet: VideoInfoSnippet,
    pub statistics: Statistics,
    pub details: LiveStreamingDetails,
}

impl Clone for VideoInfo {
    fn clone(&self) -> (r: Self)
        ensures
            r == *self,
    {
        VideoInfo {
            id: self.id.clone(),
            snippet: self.snippet.clone(),
            statistics: self.statistics,
            details: self.details.clone(),
        }
    }
}

impl VideoInfo {
    /// The identifier of the video.
    pub fn as_ref_id(&self) -> (r: &StringId<Live>)
        ensures
            *r == self.id,
    {
        &self.id
    }

    /// What the video says of itself.
    pub fn as_ref_snippet(&self) -> (r: &VideoInfoSnippet)
        ensures
            *r == self.snippet,
    {
        &self.snippet
    }

    /// The times of the broadcast.
    pub fn as_ref_live_streaming_details(&self) -> (r: &LiveStreamingDetails)
        ensures
            *r == self.details,
    {
        &self.details
    }

    /// The title.
    pub fn as_ref_title(&self) -> (r: &str)
        ensures
            r@ == self.snippet.title.0@,
    {
        self.snippet.title.0.as_str()
    }

    /// The description.
    pub fn as_ref_description(&self) -> (r: &str)
        ensures
            r@ == self.snippet.description.0@,
    {
        self.snippet.description.0.as_str()
    }

    /// The broadcast is over at the instant `now`: it has ended, or the
    /// instant for which it was scheduled is not later than `now`. A broadcast
    /// without an end whose start is strictly in the future of `now`, be it by
    /// a nanosecond, is not over, and neither is one without end and schedule.
    pub open spec fn finished_at(&self, now: MomentView) -> bool {
        ||| self.details.actual_end_time is Some
        ||| (self.details.scheduled_start_time matches Some(start) && start@.not_after(now))
    }

    /// Whether the broadcast is over at the instant `now`.
    pub fn is_live_finished_at(&self, now: &Moment) -> (r: bool)
        ensures
            r == self.finished_at(now@),
    {
        if self.details.actual_end_time.is_some() {
            return true;
        }
        match &self.details.scheduled_start_time {
            Some(start) => start.is_not_after(now),
            None => false,
        }
    }

    /// Whether the broadcast is over by the local clock: at the instant that
    /// the clock shows when it is read.
    pub fn is_live_finished(&self) -> (r: bool)
        ensures
            exists|now: MomentView| now.valid() && r == #[trigger] self.finished_at(now),
    {
        let now = Moment::now();
        self.is_live_finished_at(&now)
    }

    /// The broadcast is scheduled for a calendar year after the one in which
    /// the video was published.
    pub open spec fn too_long_span(&self) -> bool {
        self.details.scheduled_start_time matches Some(start) && start@.year
            - self.snippet.published_at@.year >= 1
    }

    /// Whether the broadcast is scheduled for a calendar year after the one in
    /// which the video was published.
    pub fn is_too_long_span_live(&self) -> (r: bool)
        ensures
            r == self.too_long_span(),
    {
        match &self.details.scheduled_start_time {
            Some(start) => {
                let scheduled: i64 = start.year() as i64;
                let published: i64 = self.snippet.published_at.year() as i64;
                scheduled - published >= 1
            },
            None => false,
        }
    }
}

impl Keyed for VideoInfo {
    open spec fn key(&self) -> Seq<char> {
        self.id@
    }

    fn same_key(&self, other: &Self) -> (r: bool) {
        self.id.same(&other.id)
    }

    fn copy(&self) -> (r: Self) {
        self.clone()
    }
}

/// The largest picture of a channel.
#[derive(Debug, PartialEq, Eq, Hash)]
pub struct HighRes {
    pub url: String,
}

/// The pictures of a channel.
#[derive(Debug, PartialEq, Eq, Hash)]
pub struct ChannelInfoThumbnail {
    pub high: HighRes,
}

impl ChannelInfoThumbnail {
    /// The address of the largest picture.
    pub fn remove_unnecessary_wrap(self) -> (r: String)
        ensures
            r == self.high.url,
    {
        self.high.url
    }
}

/// What a channel says of itself.
#[derive(Debug, PartialEq, Eq, Hash)]
pub struct ChannelInfoSnippet {
    pub title: String,
    pub description: String,
    pub published_at: Moment,
    pub thumbnails: ChannelInfoThumbnail,
}

impl Clone for ChannelInfoSnippet {
    fn clone(&self) -> (r: Self)
        ensures
            r == *self,
    {
        ChannelInfoSnippet {
            title: self.title.clone(),
            description: self.description.clone(),
            published_at: self.published_at,
            thumbnails: ChannelInfoThumbnail {
                high: HighRes { url: self.thumbnails.high.url.clone() },
            },
        }
    }
}

impl ChannelInfoSnippet {
    /// The title.
    pub fn as_ref_title(&self) -> (r: &str)
        ensures
            r@ == self.title@,
    {
        self.title.as_str()
    }

    /// The description.
    pub fn as_ref_description(&self) -> (r: &str)
        ensures
            r@ == self.description@,
    {
        self.description.as_str()
    }

    /// When it was published.
    pub fn as_ref_published_at(&self) -> (r: &Moment)
        ensures
            *r == self.published_at,
    {
        &self.published_at
    }

    /// The address of the largest picture of the channel.
    pub fn as_ref_thumbnail(&self) -> (r: &str)
        ensures
            r@ == self.thumbnails.high.url@,
    {
        self.thumbnails.high.url.as_str()
    }
}

/// The record of a channel.
#[derive(Debug, PartialEq, Eq, Hash)]
pub struct ChannelInfo {
    pub id: StringId<Channel>,
    pub snippet: ChannelInfoSnippet,
}

impl Clone for ChannelInfo {
    fn clone(&self) -> (r: Self)
        ensures
            r == *self,
    {
        ChannelInfo { id: self.id.clone(), snippet: self.snippet.clone() }
    }
}

impl ChannelInfo {
    /// The identifier of the channel.
    pub fn as_ref_id(&self) -> (r: &StringId<Channel>)
        ensures
            *r == self.id,
    {
        &self.id
    }

    /// What the channel says of itself.
    pub fn as_ref_snippet(&self) -> (r: &ChannelInfoSnippet)
        ensures
            *r == self.snippet,
    {
        &self.snippet
    }

    /// A copy of the identifier of the channel.
    pub fn breach_extraction_id(&self) -> (r: StringId<Channel>)
        ensures
            r == self.id,
    {
        self.id.clone()
    }

    /// A copy of what the channel says of itself.
    pub fn breach_extraction_snippet(&self) -> (r: ChannelInfoSnippet)
        ensures
            r == self.snippet,
    {
        self.snippet.clone()
    }
}

impl Keyed for ChannelInfo {
    open spec fn key(&self) -> Seq<char> {
        self.id@
    }

    fn same_key(&self, other: &Self) -> (r: bool) {
        self.id.same(&other.id)
    }

    fn copy(&self) -> (r: Self) {
        self.clone()
    }
}

/// The identifier of a video as a search names it.
#[derive(Debug, PartialEq, Eq, Hash)]
pub struct Identifier {
    pub video_id: StringId<Live>,
}

/// One item of the answer to a search.
#[derive(Debug, PartialEq, Eq, Hash)]
pub struct IdentifierWrapper {
    pub id: Identifier,
}

/// The identifiers that the items of an answer name, item by item.
pub open spec fn video_ids(items: Seq<IdentifierWrapper>) -> Seq<Seq<char>> {
    items.map_values(|item: IdentifierWrapper| item.id.video_id@)
}

/// The answer to a search for the upcoming videos of a channel.
#[derive(Debug, PartialEq, Eq, Hash)]
pub struct SearchedObjects {
    pub etag: String,
    pub items: Vec<IdentifierWrapper>,
}

impl SearchedObjects {
    /// The token of the answer, and the identifiers that it names.
    pub fn separate_etag(self) -> (r: (String, Vec<StringId<Live>>))
        ensures
            r.0 == self.etag,
            texts_of(r.1@) == video_ids(self.items@),
    {
        let mut ids: Vec<StringId<Live>> = Vec::new();
        let mut at: usize = 0;
        while at < self.items.len()
            invariant
                at <= self.items.len(),
                texts_of(ids@) == video_ids(self.items@.take(at as int)),
            decreases self.items.len() - at,
        {
            proof {
                assert(video_ids(self.items@.take(at as int + 1)) =~= video_ids(
                    self.items@.take(at as int),
                ).push(self.items@[at as int].id.video_id@));
                assert(texts_of(ids@.push(self.items@[at as int].id.video_id)) =~= texts_of(
                    ids@,
                ).push(self.items@[at as int].id.video_id@));
            }
            ids.push(self.items[at].id.video_id.clone());
            at += 1;
        }
        proof {
            assert(self.items@.take(at as int) =~= self.items@);
        }
        (self.etag, ids)
    }
}

/// The answer to a request for the details of videos.
#[derive(Debug, PartialEq, Eq, Hash)]
pub struct SearchedVideoInfoObjects {
    pub etag: String,
    pub items: Vec<VideoInfo>,
}

/// The answer to a request for channels.
#[derive(Debug, PartialEq, Eq, Hash)]
pub struct ChannelInfoWithEtag {
    pub etag: String,
    pub items: Vec<ChannelInfo>,
}

impl ChannelInfoWithEtag {
    /// The token of the answer, and its records.
    pub fn separate_etag(self) -> (r: (String, Vec<ChannelInfo>))
        ensures
            r.0 == self.etag,
            r.1 == self.items,
    {
        (self.etag, self.items)
    }
}

} // verus!
