use salmon::entry::cache::{Cache, CacheHandler, Etag};
use salmon::entry::config::RequestEntry;
use salmon::entry::engine::{classify, FetchEngine, ResponseKind};
use salmon::entry::request::{
    ChannelInfo, ChannelInfoSnippet, ChannelInfoThumbnail, ChannelInfoWithEtag, HighRes,
    Identifier, IdentifierWrapper, RequestError, SearchedObjects,
};
use salmon::entry::transport::salmon::Live;
use salmon::clock::Moment;
use salmon::ids::{NumId, StringId};
use salmon::models::{Channel, LiverEntry};

fn channel(id: &str) -> StringId<Channel> {
    StringId::new(id)
}

fn video(id: &str) -> StringId<Live> {
    StringId::new(id)
}

fn answer(etag: &str, ids: &[&str]) -> SearchedObjects {
    SearchedObjects {
        etag: etag.to_string(),
        items: ids
            .iter()
            .map(|id| IdentifierWrapper { id: Identifier { video_id: video(id) } })
            .collect(),
    }
}

#[test]
fn one_fresh_and_one_unchanged_channel() {
    let mut cache = CacheHandler::load_from("./.cache/video_search_cache.json", None);
    cache.push(Cache::new("B", "token-b"));
    let mut engine: FetchEngine<StringId<Live>> =
        FetchEngine::new(vec![channel("A"), channel("B")], 16).unwrap();

    let first = engine.next_request(&cache).unwrap();
    assert_eq!(first.channel, channel("A"));
    assert_eq!(first.token, Etag::new(""));
    let second = engine.next_request(&cache).unwrap();
    assert_eq!(second.channel, channel("B"));
    assert_eq!(second.token, Etag::new("token-b"));
    assert_eq!(engine.next_request(&cache), None);
    assert_eq!(engine.in_flight(), 2);
    assert!(!engine.is_drained());

    assert!(engine.complete(&mut cache, "B", 304, None));
    assert!(engine.complete(
        &mut cache,
        "A",
        200,
        Some(answer("token-a", &["KXAsNwifn0o"]).separate_etag())
    ));
    assert!(engine.is_drained());
    assert_eq!(engine.failure(), None);

    let ids = engine.finish().unwrap().unwrap();
    assert_eq!(ids, vec![video("KXAsNwifn0o")]);
    assert_eq!(cache.get("A"), Some(Etag::new("token-a")));
    assert_eq!(cache.get("B"), Some(Etag::new("token-b")));
    assert_eq!(cache.len(), 2);
}

#[test]
fn no_more_requests_than_the_limit_are_under_way() {
    let cache = CacheHandler::load_from("p", None);
    let roster: Vec<StringId<Channel>> = (0..10).map(|i| channel(&format!("c{}", i))).collect();
    let mut engine: FetchEngine<StringId<Live>> = FetchEngine::new(roster, 3).unwrap();
    assert_eq!(engine.limit(), 3);
    let mut cache = cache;
    let mut under_way: Vec<String> = Vec::new();
    let mut asked = 0;
    loop {
        while let Some(request) = engine.next_request(&cache) {
            under_way.push(request.channel.as_ref().to_string());
            asked += 1;
            assert!(engine.in_flight() <= 3);
        }
        assert_eq!(engine.in_flight(), under_way.len());
        if engine.is_drained() {
            break;
        }
        assert!(asked == 10 || engine.in_flight() == 3);
        let done = under_way.pop().unwrap();
        assert!(engine.complete(&mut cache, &done, 304, None));
    }
    assert_eq!(asked, 10);
    assert_eq!(engine.finish(), Some(Ok(Vec::new())));
}

#[test]
fn a_used_up_quota_ends_the_cycle() {
    let mut cache = CacheHandler::load_from("p", None);
    let mut engine: FetchEngine<StringId<Live>> =
        FetchEngine::new(vec![channel("A"), channel("B"), channel("C"), channel("D")], 2).unwrap();
    assert_eq!(engine.next_request(&cache).unwrap().channel, channel("A"));
    assert_eq!(engine.next_request(&cache).unwrap().channel, channel("B"));
    assert!(engine.complete(&mut cache, "A", 429, None));
    assert_eq!(engine.failure(), Some(RequestError::QuotaExhausted));
    assert_eq!(engine.next_request(&cache), None);
    assert!(!engine.is_drained());
    assert!(engine.complete(&mut cache, "B", 200, Some(answer("token-b", &["v1"]).separate_etag())));
    assert_eq!(cache.get("B"), Some(Etag::new("token-b")));
    assert_eq!(engine.next_request(&cache), None);
    assert!(engine.is_drained());
    assert_eq!(engine.finish(), Some(Err(RequestError::QuotaExhausted)));
}

#[test]
fn an_unknown_status_ends_the_cycle() {
    let mut cache = CacheHandler::load_from("p", None);
    let mut engine: FetchEngine<StringId<Live>> =
        FetchEngine::new(vec![channel("A"), channel("B")], 1).unwrap();
    engine.next_request(&cache).unwrap();
    assert!(engine.complete(&mut cache, "A", 503, None));
    assert_eq!(engine.failure(), Some(RequestError::UnknownStatus(503)));
    assert_eq!(engine.next_request(&cache), None);
    assert_eq!(engine.finish(), Some(Err(RequestError::UnknownStatus(503))));
    assert_eq!(cache.len(), 0);
}

#[test]
fn the_first_failure_stays() {
    let mut cache = CacheHandler::load_from("p", None);
    let mut engine: FetchEngine<StringId<Live>> =
        FetchEngine::new(vec![channel("A"), channel("B"), channel("C")], 3).unwrap();
    engine.next_request(&cache).unwrap();
    engine.next_request(&cache).unwrap();
    engine.next_request(&cache).unwrap();
    assert!(engine.complete(&mut cache, "C", 200, None));
    assert!(engine.complete(&mut cache, "A", 429, None));
    assert!(engine.fail_transport("B"));
    assert_eq!(engine.finish(), Some(Err(RequestError::DataParse)));
}

#[test]
fn a_request_that_could_not_be_sent_ends_the_cycle() {
    let cache = CacheHandler::load_from("p", None);
    let mut engine: FetchEngine<StringId<Live>> =
        FetchEngine::new(vec![channel("A"), channel("B")], 1).unwrap();
    engine.next_request(&cache).unwrap();
    assert!(!engine.fail_transport("B"));
    assert!(engine.fail_transport("A"));
    assert_eq!(engine.failure(), Some(RequestError::HttpGet));
    assert_eq!(engine.finish(), Some(Err(RequestError::HttpGet)));
}

#[test]
fn a_response_that_nobody_asked_for_changes_nothing() {
    let mut cache = CacheHandler::load_from("p", None);
    let mut engine: FetchEngine<StringId<Live>> =
        FetchEngine::new(vec![channel("A")], 4).unwrap();
    assert!(!engine.complete(&mut cache, "A", 200, Some(answer("t", &["v"]).separate_etag())));
    assert_eq!(cache.len(), 0);
    engine.next_request(&cache).unwrap();
    assert!(!engine.complete(&mut cache, "Z", 429, None));
    assert_eq!(engine.failure(), None);
    assert_eq!(engine.in_flight(), 1);
    assert_eq!(engine.finish(), None);
}

#[test]
fn a_channel_named_twice_is_asked_for_twice() {
    let mut cache = CacheHandler::load_from("p", None);
    let mut engine: FetchEngine<StringId<Live>> =
        FetchEngine::new(vec![channel("A"), channel("A")], 2).unwrap();
    engine.next_request(&cache).unwrap();
    engine.next_request(&cache).unwrap();
    assert!(engine.complete(&mut cache, "A", 200, Some(answer("t1", &["v1"]).separate_etag())));
    assert_eq!(engine.in_flight(), 1);
    assert!(engine.complete(&mut cache, "A", 200, Some(answer("t2", &["v2"]).separate_etag())));
    assert!(!engine.complete(&mut cache, "A", 304, None));
    assert_eq!(cache.get("A"), Some(Etag::new("t2")));
    assert_eq!(engine.finish(), Some(Ok(vec![video("v1"), video("v2")])));
}

#[test]
fn there_is_no_engine_for_a_limit_of_zero() {
    let made: Option<FetchEngine<StringId<Live>>> = FetchEngine::new(vec![channel("A")], 0);
    assert!(made.is_none());
}

#[test]
fn an_empty_roster_is_drained_at_once() {
    let cache = CacheHandler::load_from("p", None);
    let mut engine: FetchEngine<StringId<Live>> = FetchEngine::new(Vec::new(), 16).unwrap();
    assert_eq!(engine.next_request(&cache), None);
    assert!(engine.is_drained());
    assert_eq!(engine.finish(), Some(Ok(Vec::new())));
}

#[test]
fn status_codes_are_told_apart() {
    assert_eq!(classify(200), ResponseKind::Fresh);
    assert_eq!(classify(304), ResponseKind::NotModified);
    assert_eq!(classify(429), ResponseKind::QuotaExhausted);
    assert_eq!(classify(404), ResponseKind::Unknown);
    assert_eq!(classify(201), ResponseKind::Unknown);
    assert_eq!(classify(0), ResponseKind::Unknown);
}

#[test]
fn the_engine_finds_channel_records_too() {
    let moment = Moment::new(1_577_836_800, 0, 2020, 1, 1, 0, 0).unwrap();
    let info = ChannelInfo {
        id: channel("A"),
        snippet: ChannelInfoSnippet {
            title: "title".to_string(),
            description: "about".to_string(),
            published_at: moment,
            thumbnails: ChannelInfoThumbnail { high: HighRes { url: "http://logo".to_string() } },
        },
    };
    let mut cache = CacheHandler::load_from("./.cache/ch_search_cache.json", None);
    let mut engine: FetchEngine<ChannelInfo> = FetchEngine::new(vec![channel("A")], 16).unwrap();
    engine.next_request(&cache).unwrap();
    let body = ChannelInfoWithEtag { etag: "e".to_string(), items: vec![info.clone()] };
    assert!(engine.complete(&mut cache, "A", 200, Some(body.separate_etag())));
    assert_eq!(engine.finish(), Some(Ok(vec![info])));
    assert_eq!(cache.get("A"), Some(Etag::new("e")));
}

#[test]
fn a_request_entry_asks_for_the_channels_of_its_people() {
    let livers = vec![
        LiverEntry::new(
            NumId::new(1),
            "one",
            "eins",
            "https://twitter.com/one",
            vec![Channel::Youtube { id: channel("A") }, Channel::Unsupported],
        ),
        LiverEntry::new(NumId::new(2), "two", "zwei", "https://twitter.com/two", vec![]),
        LiverEntry::new(
            NumId::new(3),
            "three",
            "drei",
            "https://twitter.com/three",
            vec![Channel::Youtube { id: channel("B") }, Channel::Youtube { id: channel("C") }],
        ),
    ];
    let entry = RequestEntry::new(livers);
    assert_eq!(entry.roster(), vec![channel("A"), channel("B"), channel("C")]);
    let cache = CacheHandler::load_from("p", None);
    let mut engine = entry.engine(1).unwrap();
    assert_eq!(engine.next_request(&cache).unwrap().channel, channel("A"));
    assert_eq!(engine.next_request(&cache), None);
    assert!(entry.engine(0).is_none());
}

#[test]
fn errors_report_themselves() {
    assert_eq!(RequestError::HttpGet.message(), "failed get http request.");
    assert_eq!(RequestError::DataParse.message(), "cannot parse. this data structure is wrong.");
    assert_eq!(RequestError::QuotaExhausted.message(), "Resource Exhausted, Quota Limit exceeded!");
    assert_eq!(RequestError::UnknownStatus(500).message(), "unknown error code.");
}

#[test]
fn deserialize_response() {
    static JSON_STRUCT: &str = r#"
{
    "etag": "_NtfKFaDSQPi_nKlGipTi6U25gk",
    "items": [
        { "id": { "videoId": "KXAsNwifn0o" } }
    ]
}
        "#;

    let read: serde_json::Value = serde_json::from_str(JSON_STRUCT).expect("cannot parse.");
    let parsed = SearchedObjects {
        etag: read["etag"].as_str().expect("cannot parse.").to_string(),
        items: read["items"]
            .as_array()
            .expect("cannot parse.")
            .iter()
            .map(|item| IdentifierWrapper {
                id: Identifier {
                    video_id: video(item["id"]["videoId"].as_str().expect("cannot parse.")),
                },
            })
            .collect(),
    };
    assert_eq!(
        parsed.separate_etag(),
        ("_NtfKFaDSQPi_nKlGipTi6U25gk".to_string(), vec![video("KXAsNwifn0o")])
    );
}

#[test]
fn whatever_the_order_of_the_responses_every_channel_is_asked_for_once() {
    let mut seed: u64 = 0x2545_F491_4F6C_DD1D;
    for round in 0..50usize {
        let channels = 1 + round % 23;
        let limit = 1 + round % 7;
        let roster: Vec<StringId<Channel>> =
            (0..channels).map(|i| channel(&format!("c{}", i))).collect();
        let mut cache = CacheHandler::load_from("p", None);
        let mut engine: FetchEngine<StringId<Live>> = FetchEngine::new(roster, limit).unwrap();
        let mut under_way: Vec<String> = Vec::new();
        let mut asked: Vec<String> = Vec::new();
        let mut fresh: Vec<String> = Vec::new();
        loop {
            while let Some(request) = engine.next_request(&cache) {
                assert_eq!(request.token, Etag::new(""));
                under_way.push(request.channel.as_ref().to_string());
                asked.push(request.channel.as_ref().to_string());
            }
            assert!(engine.in_flight() <= limit);
            assert_eq!(engine.in_flight(), under_way.len());
            if under_way.is_empty() {
                break;
            }
            seed = seed.wrapping_mul(6364136223846793005).wrapping_add(1442695040888963407);
            let pick = (seed >> 33) as usize % under_way.len();
            let done = under_way.swap_remove(pick);
            if (seed >> 20) % 3 == 0 {
                assert!(engine.complete(&mut cache, &done, 304, None));
            } else {
                let body = answer(&format!("token-{}", done), &[&format!("video-of-{}", done)]);
                assert!(engine.complete(&mut cache, &done, 200, Some(body.separate_etag())));
                fresh.push(done);
            }
        }
        assert!(engine.is_drained());
        let expected: Vec<String> = (0..channels).map(|i| format!("c{}", i)).collect();
        assert_eq!(asked, expected);
        assert_eq!(cache.len(), fresh.len());
        for name in fresh.iter() {
            assert_eq!(cache.get(name), Some(Etag::new(&format!("token-{}", name))));
        }
        let found = engine.finish().unwrap().unwrap();
        let expected_ids: Vec<StringId<Live>> =
            fresh.iter().map(|name| video(&format!("video-of-{}", name))).collect();
        assert_eq!(found, expected_ids);
    }
}
