use salmon::clock::Moment;
use salmon::entry::batch::{
    absorb_details, batch, deduplicate, detail_queries, gather, join_ids, put_record,
    DetailStage, BATCH_SIZE,
};
use salmon::entry::request::{
    ChannelInfo, ChannelInfoSnippet, ChannelInfoThumbnail, HighRes, Keyed, LiveStreamingDetails,
    RequestError, Statistics, TextComponent, VideoInfo, VideoInfoSnippet,
};
use salmon::entry::transport::salmon::Live;
use salmon::ids::StringId;

fn ids(count: usize) -> Vec<StringId<Live>> {
    (0..count).map(|i| StringId::new(&format!("v{}", i))).collect()
}

fn record(id: &str, title: &str) -> VideoInfo {
    VideoInfo {
        id: StringId::new(id),
        snippet: VideoInfoSnippet {
            published_at: Moment::new(1_577_836_800, 0, 2020, 1, 1, 0, 0).unwrap(),
            channel_id: StringId::new("channel"),
            title: TextComponent::from_str(title),
            description: TextComponent::from_str("about"),
            channel_title: "the channel".to_string(),
        },
        statistics: Statistics { view_count: 1, like_count: 2, favorite_count: 3, comment_count: 4 },
        details: LiveStreamingDetails {
            actual_start_time: None,
            actual_end_time: None,
            scheduled_start_time: None,
            active_live_chat_id: None,
        },
    }
}

#[test]
fn batch_size_is_fifty() {
    assert_eq!(BATCH_SIZE, 50);
}

#[test]
fn no_identifiers_make_no_batch() {
    assert_eq!(batch(ids(0)).len(), 0);
    assert_eq!(detail_queries(ids(0)), Vec::<String>::new());
}

#[test]
fn fifty_identifiers_make_one_batch() {
    let batches = batch(ids(50));
    assert_eq!(batches.len(), 1);
    assert_eq!(batches[0], ids(50));
}

#[test]
fn fifty_one_identifiers_make_two_batches() {
    let batches = batch(ids(51));
    assert_eq!(batches.len(), 2);
    assert_eq!(batches[0].len(), 50);
    assert_eq!(batches[1].len(), 1);
    assert_eq!(batches[0], ids(50));
    assert_eq!(batches[1], vec![StringId::new("v50")]);
}

#[test]
fn a_hundred_identifiers_make_two_full_batches() {
    let batches = batch(ids(100));
    assert_eq!(batches.len(), 2);
    assert_eq!(batches[0].len(), 50);
    assert_eq!(batches[1].len(), 50);
    let all: Vec<StringId<Live>> = batches.into_iter().flatten().collect();
    assert_eq!(all, ids(100));
}

#[test]
fn batches_keep_every_item_in_its_place() {
    for count in [1usize, 49, 99, 101, 150, 173] {
        let batches = batch(ids(count));
        assert_eq!(batches.len(), (count + 49) / 50);
        for (k, b) in batches.iter().enumerate() {
            assert!(b.len() == 50 || (k == batches.len() - 1 && b.len() == count - 50 * k));
        }
        let all: Vec<StringId<Live>> = batches.into_iter().flatten().collect();
        assert_eq!(all, ids(count));
    }
}

#[test]
fn of_equal_identifiers_the_first_stays() {
    let given: Vec<StringId<Live>> =
        ["a", "b", "a", "c", "b", "a", "d"].iter().map(|id| StringId::new(id)).collect();
    let expected: Vec<StringId<Live>> =
        ["a", "b", "c", "d"].iter().map(|id| StringId::new(id)).collect();
    assert_eq!(deduplicate(given), expected);
    assert_eq!(deduplicate(Vec::<StringId<Live>>::new()), Vec::new());
}

#[test]
fn identifiers_are_joined_by_commas() {
    assert_eq!(join_ids(&ids(0)), "");
    assert_eq!(join_ids(&ids(1)), "v0");
    assert_eq!(join_ids(&ids(3)), "v0,v1,v2");
}

#[test]
fn detail_queries_name_each_identifier_once() {
    let mut given = ids(51);
    given.extend(ids(10));
    let queries = detail_queries(given);
    assert_eq!(queries.len(), 2);
    assert_eq!(queries[0], join_ids(&ids(50)));
    assert_eq!(queries[1], "v50");
    assert_eq!(queries[0].split(',').count(), 50);
}

#[test]
fn records_are_gathered_by_identifier() {
    let gathered = absorb_details(
        vec![record("a", "first"), record("b", "second")],
        200,
        Some(vec![record("c", "third"), record("a", "fourth"), record("c", "fifth")]),
    );
    assert_eq!(
        gathered,
        Ok(vec![record("b", "second"), record("a", "fourth"), record("c", "fifth")])
    );
}

#[test]
fn put_record_takes_the_place_of_every_record_with_its_identifier() {
    let kept = put_record(
        vec![record("a", "1"), record("b", "2"), record("a", "3")],
        record("a", "4"),
    );
    assert_eq!(kept, vec![record("b", "2"), record("a", "4")]);
    assert_eq!(put_record(Vec::new(), record("a", "1")), vec![record("a", "1")]);
}

#[test]
fn a_detail_response_without_change_brings_nothing() {
    let before = vec![record("a", "first")];
    assert_eq!(absorb_details(before.clone(), 304, None), Ok(before.clone()));
    assert_eq!(absorb_details(before.clone(), 304, Some(vec![record("z", "no")])), Ok(before));
}

#[test]
fn fatal_detail_responses() {
    let before = vec![record("a", "first")];
    assert_eq!(absorb_details(before.clone(), 429, None), Err(RequestError::QuotaExhausted));
    assert_eq!(absorb_details(before.clone(), 500, None), Err(RequestError::UnknownStatus(500)));
    assert_eq!(absorb_details(before.clone(), 200, None), Err(RequestError::DataParse));
    assert_eq!(
        absorb_details(before, 404, Some(vec![record("b", "x")])),
        Err(RequestError::UnknownStatus(404))
    );
}

#[test]
fn detail_requests_go_one_by_one() {
    let mut stage = DetailStage::new(ids(120));
    assert!(!stage.is_done());
    assert!(!stage.complete(200, Some(vec![record("x", "early")])));
    assert!(!stage.fail_transport());
    let first = stage.next_request().unwrap();
    assert_eq!(first, join_ids(&ids(50)));
    assert_eq!(stage.next_request(), None);
    assert!(stage.complete(200, Some(vec![record("a", "1"), record("b", "2")])));
    let second = stage.next_request().unwrap();
    assert_eq!(second.split(',').next(), Some("v50"));
    assert!(stage.complete(304, None));
    let third = stage.next_request().unwrap();
    assert_eq!(third.split(',').count(), 20);
    assert!(!stage.is_done());
    assert!(stage.complete(200, Some(vec![record("a", "3")])));
    assert_eq!(stage.next_request(), None);
    assert!(stage.is_done());
    assert_eq!(stage.finish(), Some(Ok(vec![record("b", "2"), record("a", "3")])));
}

#[test]
fn no_identifiers_make_no_detail_request() {
    let mut stage = DetailStage::new(ids(0));
    assert!(stage.is_done());
    assert_eq!(stage.next_request(), None);
    assert_eq!(stage.finish(), Some(Ok(Vec::new())));
}

#[test]
fn a_fatal_detail_response_ends_the_stage() {
    for (status, error) in [
        (429, RequestError::QuotaExhausted),
        (500, RequestError::UnknownStatus(500)),
        (200, RequestError::DataParse),
    ] {
        let mut stage = DetailStage::new(ids(120));
        stage.next_request().unwrap();
        assert!(stage.complete(200, Some(vec![record("a", "1")])));
        stage.next_request().unwrap();
        assert!(stage.complete(status, None));
        assert_eq!(stage.next_request(), None);
        assert!(stage.is_done());
        assert_eq!(stage.finish(), Some(Err(error)));
    }
    let mut stage = DetailStage::new(ids(120));
    stage.next_request().unwrap();
    assert!(stage.fail_transport());
    assert_eq!(stage.next_request(), None);
    assert_eq!(stage.finish(), Some(Err(RequestError::HttpGet)));
}

#[test]
fn a_stage_that_is_under_way_has_no_result() {
    let mut stage = DetailStage::new(ids(51));
    assert_eq!(DetailStage::new(ids(51)).finish(), None);
    stage.next_request().unwrap();
    assert!(stage.complete(304, None));
    assert_eq!(stage.finish(), None);
}

fn channel(id: &str, title: &str) -> ChannelInfo {
    ChannelInfo {
        id: StringId::new(id),
        snippet: ChannelInfoSnippet {
            title: title.to_string(),
            description: "about".to_string(),
            published_at: Moment::new(1_577_836_800, 0, 2020, 1, 1, 0, 0).unwrap(),
            thumbnails: ChannelInfoThumbnail { high: HighRes { url: "http://logo".to_string() } },
        },
    }
}

#[test]
fn channel_records_are_gathered_by_identifier_too() {
    let gathered = gather(
        Vec::new(),
        vec![channel("a", "1"), channel("b", "2"), channel("a", "3"), channel("b", "2")],
    );
    assert_eq!(gathered, vec![channel("a", "3"), channel("b", "2")]);
    assert_eq!(gather(vec![channel("a", "1")], Vec::new()), vec![channel("a", "1")]);
}

#[test]
fn records_are_told_by_their_identifiers() {
    assert!(record("a", "1").same_key(&record("a", "2")));
    assert!(!record("a", "1").same_key(&record("b", "1")));
    assert!(channel("a", "1").same_key(&channel("a", "2")));
    assert!(!channel("a", "1").same_key(&channel("b", "1")));
    assert_eq!(record("a", "1").copy(), record("a", "1"));
    assert_eq!(channel("a", "1").copy(), channel("a", "1"));
}
