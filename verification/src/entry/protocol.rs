//! The shape of the requests that the platform takes.

use vstd::prelude::*;

verus! {

/// The address of the search for videos.
pub const SEARCH_URL: &'static str = "https://www.googleapis.com/youtube/v3/search";

/// The address of the details of videos.
pub const VIDEOS_URL: &'static str = "https://www.googleapis.com/youtube/v3/videos";

/// The address of the records of channels.
pub const CHANNELS_URL: &'static str = "https://www.googleapis.com/youtube/v3/channels";

/// The name of the header that carries the token of a conditional request.
pub const TOKEN_HEADER: &'static str = "if-none-match";

/// The name of the header that says who asks.
pub const AGENT_HEADER: &'static str = "user-agent";

/// Who asks.
pub const USER_AGENT: &'static str =
    "Nekomata-salmon (retrieve for scheduled live of virtual liver. [https://github.com/ReiRokusanami0010/salmon])";

/// What a search is to send of each video.
pub const SEARCH_FIELDS: &'static str = "(etag, items(id(videoId)))";

/// What a detail request is to send of each video.
pub const DETAIL_FIELDS: &'static str =
    "(etag, items(id, snippet(title, description, channelTitle, channelId, publishedAt), statistics, liveStreamingDetails))";

/// What a request for channels is to send of each channel.
pub const CHANNEL_FIELDS: &'static str =
    "(etag, items(id, (snippet(title, description, publishedAt, thumbnails(high(url))))))";

/// One parameter of the query of a request.
#[derive(Debug, PartialEq, Eq, Hash)]
pub struct Parameter {
    pub name: &'static str,
    pub value: String,
}

/// The parameter says `name=value`.
pub open spec fn says(parameter: Parameter, name: Seq<char>, value: Seq<char>) -> bool {
    parameter.name@ == name && parameter.value@ == value
}

fn parameter(name: &'static str, value: &str) -> (r: Parameter)
    ensures
        says(r, name@, value@),
{
    Parameter { name, value: value.to_owned() }
}

/// The query of the search for the upcoming videos of `channel`.
pub fn search_parameters(channel: &str, api_key: &str) -> (r: Vec<Parameter>)
    ensures
        r@.len() == 6,
        says(r@[0], "channelId"@, channel@),
        says(r@[1], "part"@, "snippet"@),
        says(r@[2], "type"@, "video"@),
        says(r@[3], "eventType"@, "upcoming"@),
        says(r@[4], "fields"@, SEARCH_FIELDS@),
        says(r@[5], "key"@, api_key@),
{
    let mut query: Vec<Parameter> = Vec::new();
    query.push(parameter("channelId", channel));
    query.push(parameter("part", "snippet"));
    query.push(parameter("type", "video"));
    query.push(parameter("eventType", "upcoming"));
    query.push(parameter("fields", SEARCH_FIELDS));
    query.push(parameter("key", api_key));
    query
}

/// The query of the request for the details of the videos that `ids` names,
/// joined by commas.
pub fn detail_parameters(ids: &str, api_key: &str) -> (r: Vec<Parameter>)
    ensures
        r@.len() == 4,
        says(r@[0], "id"@, ids@),
        says(r@[1], "part"@, "liveStreamingDetails,statistics,snippet"@),
        says(r@[2], "fields"@, DETAIL_FIELDS@),
        says(r@[3], "key"@, api_key@),
{
    let mut query: Vec<Parameter> = Vec::new();
    query.push(parameter("id", ids));
    query.push(parameter("part", "liveStreamingDetails,statistics,snippet"));
    query.push(parameter("fields", DETAIL_FIELDS));
    query.push(parameter("key", api_key));
    query
}

/// The query of the request for the record of `channel`.
pub fn channel_parameters(channel: &str, api_key: &str) -> (r: Vec<Parameter>)
    ensures
        r@.len() == 4,
        says(r@[0], "id"@, channel@),
        says(r@[1], "part"@, "snippet,statistics"@),
        says(r@[2], "fields"@, CHANNEL_FIELDS@),
        says(r@[3], "key"@, api_key@),
{
    let mut query: Vec<Parameter> = Vec::new();
    query.push(parameter("id", channel));
    query.push(parameter("part", "snippet,statistics"));
    query.push(parameter("fields", CHANNEL_FIELDS));
    query.push(parameter("key", api_key));
    query
}

} // verus!
