use salmon::entry::protocol::{
    channel_parameters, detail_parameters, search_parameters, Parameter, AGENT_HEADER,
    CHANNELS_URL, CHANNEL_FIELDS, DETAIL_FIELDS, SEARCH_FIELDS, SEARCH_URL, TOKEN_HEADER,
    USER_AGENT, VIDEOS_URL,
};

fn parameter(name: &'static str, value: &str) -> Parameter {
    Parameter { name, value: value.to_string() }
}

#[test]
fn a_search_asks_for_the_upcoming_videos_of_a_channel() {
    assert_eq!(
        search_parameters("UChAnqc_AY5_I3Px5dig3X1Q", "the-key"),
        vec![
            parameter("channelId", "UChAnqc_AY5_I3Px5dig3X1Q"),
            parameter("part", "snippet"),
            parameter("type", "video"),
            parameter("eventType", "upcoming"),
            parameter("fields", "(etag, items(id(videoId)))"),
            parameter("key", "the-key"),
        ]
    );
}

#[test]
fn a_detail_request_names_its_videos() {
    assert_eq!(
        detail_parameters("a,b,c", "the-key"),
        vec![
            parameter("id", "a,b,c"),
            parameter("part", "liveStreamingDetails,statistics,snippet"),
            parameter(
                "fields",
                "(etag, items(id, snippet(title, description, channelTitle, channelId, publishedAt), statistics, liveStreamingDetails))"
            ),
            parameter("key", "the-key"),
        ]
    );
}

#[test]
fn a_channel_request_names_its_channel() {
    assert_eq!(
        channel_parameters("UC1", "the-key"),
        vec![
            parameter("id", "UC1"),
            parameter("part", "snippet,statistics"),
            parameter(
                "fields",
                "(etag, items(id, (snippet(title, description, publishedAt, thumbnails(high(url))))))"
            ),
            parameter("key", "the-key"),
        ]
    );
}

#[test]
fn addresses_and_headers() {
    assert_eq!(SEARCH_URL, "https://www.googleapis.com/youtube/v3/search");
    assert_eq!(VIDEOS_URL, "https://www.googleapis.com/youtube/v3/videos");
    assert_eq!(CHANNELS_URL, "https://www.googleapis.com/youtube/v3/channels");
    assert_eq!(TOKEN_HEADER, "if-none-match");
    assert_eq!(AGENT_HEADER, "user-agent");
    assert!(USER_AGENT.starts_with("Nekomata-salmon"));
    assert_eq!(SEARCH_FIELDS, "(etag, items(id(videoId)))");
    assert!(DETAIL_FIELDS.contains("liveStreamingDetails"));
    assert!(CHANNEL_FIELDS.contains("thumbnails(high(url))"));
}
