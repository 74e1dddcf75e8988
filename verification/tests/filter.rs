use salmon::clock::Moment;
use salmon::entry::filter::{filter_upcoming, is_ignored_title, upcoming, IGNORED_TITLE_PATTERN};
use salmon::entry::live_messages;
use salmon::entry::request::{
    LiveStreamingDetails, Statistics, TextComponent, VideoInfo, VideoInfoSnippet,
};
use salmon::entry::transport::salmon::Timestamp;
use salmon::ids::StringId;

const JAN_2020: i64 = 1_577_836_800;
const JUN_2020: i64 = 1_590_969_600;
const JUN_2021: i64 = 1_622_505_600;

fn at(seconds: i64, nanos: u32) -> Moment {
    Moment::new(seconds, nanos, 2020, 1, 1, 0, 0).unwrap()
}

fn jan_2020() -> Moment {
    Moment::new(JAN_2020, 0, 2020, 1, 1, 0, 0).unwrap()
}

fn jun_2020() -> Moment {
    Moment::new(JUN_2020, 0, 2020, 6, 1, 0, 0).unwrap()
}

fn jun_2021() -> Moment {
    Moment::new(JUN_2021, 0, 2021, 6, 1, 0, 0).unwrap()
}

fn record(
    id: &str,
    title: &str,
    published: Moment,
    scheduled: Option<Moment>,
    ended: Option<Moment>,
) -> VideoInfo {
    VideoInfo {
        id: StringId::new(id),
        snippet: VideoInfoSnippet {
            published_at: published,
            channel_id: StringId::new("channel"),
            title: TextComponent::from_str(title),
            description: TextComponent::from_str("about"),
            channel_title: "the channel".to_string(),
        },
        statistics: Statistics { view_count: 0, like_count: 0, favorite_count: 0, comment_count: 0 },
        details: LiveStreamingDetails {
            actual_start_time: None,
            actual_end_time: ended,
            scheduled_start_time: scheduled,
            active_live_chat_id: None,
        },
    }
}

#[test]
fn a_record_with_an_end_is_dropped_whatever_its_schedule() {
    let now = &at(JAN_2020 + 60, 0);
    let ended = Some(jan_2020());
    assert!(!record("a", "talk", jan_2020(), None, ended).is_retained(now));
    assert!(!record("b", "talk", jan_2020(), Some(jun_2020()), ended).is_retained(now));
    assert!(!record("c", "talk", jan_2020(), Some(jan_2020()), ended).is_retained(now));
    assert!(record("d", "talk", jan_2020(), Some(jun_2020()), None).is_retained(now));
    assert!(record("a", "talk", jan_2020(), None, ended).is_live_finished());
    assert!(record("a", "talk", jan_2020(), None, ended).is_live_finished_at(&at(i64::MIN, 0)));
}

#[test]
fn a_record_without_schedule_and_end_is_not_finished() {
    let plain = record("a", "talk", jan_2020(), None, None);
    assert!(!plain.is_live_finished_at(&at(i64::MAX, 1_999_999_999)));
    assert!(!plain.is_live_finished());
    assert!(!plain.is_too_long_span_live());
    assert!(plain.is_retained(&at(0, 0)));
}

#[test]
fn a_schedule_has_to_be_strictly_in_the_future() {
    let scheduled = record("a", "talk", jan_2020(), Some(jun_2020()), None);
    assert!(!scheduled.is_live_finished_at(&at(JUN_2020 - 1, 0)));
    assert!(!scheduled.is_live_finished_at(&at(JUN_2020 - 1, 999_999_999)));
    assert!(scheduled.is_live_finished_at(&at(JUN_2020, 0)));
    assert!(scheduled.is_live_finished_at(&at(JUN_2020, 1)));
    assert!(scheduled.is_live_finished_at(&at(JUN_2020 + 1, 0)));
    assert!(scheduled.is_live_finished());
    assert!(scheduled.is_retained(&at(JUN_2020 - 1, 0)));
    assert!(!scheduled.is_retained(&at(JUN_2020, 0)));
}

#[test]
fn a_start_later_within_the_same_second_is_in_the_future() {
    let start = at(JUN_2020, 500_000_000);
    let scheduled = record("a", "talk", jan_2020(), Some(start), None);
    assert!(!scheduled.is_live_finished_at(&at(JUN_2020, 200_000_000)));
    assert!(!scheduled.is_live_finished_at(&at(JUN_2020, 499_999_999)));
    assert!(scheduled.is_live_finished_at(&at(JUN_2020, 500_000_000)));
    assert!(scheduled.is_live_finished_at(&at(JUN_2020, 500_000_001)));
    assert!(scheduled.is_live_finished_at(&at(JUN_2020 + 1, 0)));
    assert!(!scheduled.is_live_finished_at(&at(JUN_2020 - 1, 999_999_999)));
    assert!(scheduled.is_retained(&at(JUN_2020, 200_000_000)));
    assert!(!scheduled.is_retained(&at(JUN_2020, 500_000_000)));
    let kept = filter_upcoming(&vec![scheduled], &at(JUN_2020, 200_000_000));
    assert_eq!(kept.len(), 1);
    let messages = live_messages(
        &vec![record("a", "talk", jan_2020(), Some(start), None)],
        &at(JUN_2020, 200_000_000),
    );
    assert_eq!(messages.len(), 1);
    assert_eq!(
        messages[0].will_start_at,
        Some(Timestamp { seconds: JUN_2020, nanos: 500_000_000 })
    );
    let none = live_messages(
        &vec![record("a", "talk", jan_2020(), Some(start), None)],
        &at(JUN_2020, 500_000_000),
    );
    assert!(none.is_empty());
}

#[test]
fn a_schedule_in_a_later_year_is_dropped() {
    let now = &at(JAN_2020 + 60, 0);
    let far = record("a", "talk", jan_2020(), Some(jun_2021()), None);
    assert!(far.is_too_long_span_live());
    assert!(!far.is_retained(now));
    let near = record("b", "talk", jan_2020(), Some(jun_2020()), None);
    assert!(!near.is_too_long_span_live());
    assert!(near.is_retained(now));
    let backwards = record("c", "talk", jun_2021(), Some(jun_2020()), None);
    assert!(!backwards.is_too_long_span_live());
}

#[test]
fn the_year_span_goes_by_the_calendar_year() {
    let december = Moment::new(1_609_372_800, 0, 2020, 12, 31, 0, 0).unwrap();
    let january = Moment::new(1_609_459_200, 0, 2021, 1, 1, 0, 0).unwrap();
    let over_new_year = record("a", "talk", december, Some(january), None);
    assert!(over_new_year.is_too_long_span_live());
    let extreme = record(
        "b",
        "talk",
        Moment::new(0, 0, i32::MIN, 1, 1, 0, 0).unwrap(),
        Some(Moment::new(0, 0, i32::MAX, 1, 1, 0, 0).unwrap()),
        None,
    );
    assert!(extreme.is_too_long_span_live());
}

#[test]
fn free_chat_titles_are_dropped() {
    assert!(is_ignored_title("Free Chat #12"));
    assert!(!is_ignored_title("Free Talk #12"));
    let now = &at(JAN_2020, 0);
    assert!(!record("a", "Free Chat #12", jan_2020(), Some(jun_2020()), None).is_retained(now));
    assert!(record("b", "Free Talk #12", jan_2020(), Some(jun_2020()), None).is_retained(now));
}

#[test]
fn free_chat_is_known_in_its_spellings() {
    for title in [
        "freechat",
        "FREECHAT",
        "FrEeEeChAt room",
        "my free\tchat",
        "フリーチャット",
        "ふりーちゃっと",
        "ﾌﾘーﾁｬｯﾄ",
        "ﾌﾘｰﾁｬｯﾄ",
        "ﾌﾘｰｰﾁｬｯﾄ",
        "ふリーﾁゃッﾄ",
        "【フリーーーチャット】雑談",
    ] {
        assert!(is_ignored_title(title), "{}", title);
    }
    for title in [
        "",
        "free  chat",
        "frchat",
        "free-chat",
        "フリチャット",
        "ﾌﾘﾁｬｯﾄ",
        "chat free",
        "Free Chah",
    ] {
        assert!(!is_ignored_title(title), "{}", title);
    }
    assert!(IGNORED_TITLE_PATTERN.contains("[Ff]"));
}

#[test]
fn a_title_is_not_its_own_match() {
    assert!(!is_ignored_title(IGNORED_TITLE_PATTERN));
    assert!(!is_ignored_title("true"));
}

#[test]
fn the_filter_keeps_the_order() {
    let now = &at(JAN_2020 + 60, 0);
    let videos = vec![
        record("a", "first", jan_2020(), Some(jun_2020()), None),
        record("b", "Free Chat", jan_2020(), Some(jun_2020()), None),
        record("c", "ended", jan_2020(), Some(jun_2020()), Some(jan_2020())),
        record("d", "second", jan_2020(), None, None),
        record("e", "late", jan_2020(), Some(jun_2021()), None),
        record("f", "started", jan_2020(), Some(jan_2020()), None),
        record("a", "first", jan_2020(), Some(jun_2020()), None),
    ];
    let kept = filter_upcoming(&videos, now);
    assert_eq!(
        kept,
        vec![
            record("a", "first", jan_2020(), Some(jun_2020()), None),
            record("d", "second", jan_2020(), None, None),
            record("a", "first", jan_2020(), Some(jun_2020()), None),
        ]
    );
    assert_eq!(filter_upcoming(&Vec::new(), now), Vec::new());
    assert_eq!(videos.len(), 7);
}

#[test]
fn by_the_local_clock_the_past_is_over() {
    let videos = vec![
        record("a", "past", jan_2020(), Some(jun_2020()), None),
        record("b", "open", jan_2020(), None, None),
    ];
    assert_eq!(upcoming(&videos), vec![record("b", "open", jan_2020(), None, None)]);
}

#[test]
fn messages_are_made_for_what_is_handed_on() {
    let now = Moment::new(JAN_2020 + 60, 5, 2020, 1, 1, 0, 1).unwrap();
    let videos = vec![
        record("a", "first", jan_2020(), Some(jun_2020()), None),
        record("b", "Free Chat", jan_2020(), Some(jun_2020()), None),
    ];
    let messages = live_messages(&videos, &now);
    assert_eq!(messages.len(), 1);
    let message = &messages[0];
    assert_eq!(message.video_id, "a");
    assert_eq!(message.channel_id, Some("channel".to_string()));
    assert_eq!(message.title, "first");
    assert_eq!(message.description, "about");
    assert_eq!(message.published_at, Some(Timestamp { seconds: JAN_2020, nanos: 0 }));
    assert_eq!(message.updated_at, Some(Timestamp { seconds: JAN_2020 + 60, nanos: 5 }));
    assert_eq!(message.will_start_at, Some(Timestamp { seconds: JUN_2020, nanos: 0 }));
    assert_eq!(message.started_at, None);
    assert_eq!(message.override_at, 202001010001);
}
