//! The content filter: which of the fetched records are handed on.
//!
//! A record is handed on if its broadcast is not over, is not scheduled for a
//! later calendar year than the one in which the video was published, and has
//! no title that marks a free chat room.

use crate::clock::{Moment, MomentView};
use crate::entry::request::VideoInfo;
use crate::sequences::{lemma_filter_empty, lemma_filter_take_next};
use vstd::prelude::*;

verus! {

/// The pattern of the titles that mark a free chat room, in Latin letters of
/// either case and in kana of either width, with a long vowel of any length
/// in either width.
pub const IGNORED_TITLE_PATTERN: &'static str =
    "(([Ff])([Rr])(([Ee])+)([Cc])([Hh])([Aa])([Tt]))|(([Ff])([Rr])(([Ee])+)\\s([Cc])([Hh])([Aa])([Tt]))|(([ふフﾌ])([りリﾘ])(([ーｰ])+)([ちチﾁ])([ゃャｬ])([っッｯ])([とトﾄ]))";

/// Whether the regular expression `pattern` matches somewhere in `text`;
/// `None` where `pattern` is no regular expression that the regex crate
/// compiles.
pub uninterp spec fn regex_match(pattern: Seq<char>, text: Seq<char>) -> Option<bool>;

/// Compiles `pattern` with `regex::Regex::new` and asks `Regex::is_match`
/// whether it matches anywhere in `text`. Both depend on the two texts alone;
/// the contract gives the answer its name and claims nothing more of it.
#[verifier::external_body]
fn search(pattern: &str, text: &str) -> (r: Option<bool>)
    ensures
        r == regex_match(pattern@, text@),
{
    match regex::Regex::new(pattern) {
        Ok(compiled) => Some(compiled.is_match(text)),
        Err(_) => None,
    }
}

/// The title marks a free chat room.
pub open spec fn title_ignored(title: Seq<char>) -> bool {
    regex_match(IGNORED_TITLE_PATTERN@, title) == Some(true)
}

/// Whether `title` marks a free chat room.
pub fn is_ignored_title(title: &str) -> (r: bool)
    ensures
        r == title_ignored(title@),
{
    match search(IGNORED_TITLE_PATTERN, title) {
        Some(found) => found,
        None => false,
    }
}

/// The record is handed on at the instant `now`.
pub open spec fn retained(video: VideoInfo, now: MomentView) -> bool {
    &&& !video.finished_at(now)
    &&& !video.too_long_span()
    &&& !title_ignored(video.snippet.title.0@)
}

/// Those of `videos` that are handed on at `now`, in their order.
pub open spec fn retained_of(videos: Seq<VideoInfo>, now: MomentView) -> Seq<VideoInfo> {
    videos.filter(|v: VideoInfo| retained(v, now))
}

impl VideoInfo {
    /// Whether the record is handed on at `now`, where `ignored` says whether
    /// its title marks a free chat room.
    pub fn passes(&self, now: &Moment, ignored: bool) -> (r: bool)
        ensures
            r == (!self.finished_at(now@) && !self.too_long_span() && !ignored),
    {
        !self.is_live_finished_at(now) && !self.is_too_long_span_live() && !ignored
    }

    /// Whether the record is handed on at the instant `now`.
    pub fn is_retained(&self, now: &Moment) -> (r: bool)
        ensures
            r == retained(*self, now@),
    {
        self.passes(now, is_ignored_title(self.as_ref_title()))
    }
}

/// Those of `videos` that are handed on at `now`, in their order.
pub fn filter_upcoming(videos: &Vec<VideoInfo>, now: &Moment) -> (r: Vec<VideoInfo>)
    ensures
        r@ == retained_of(videos@, now@),
{
    let ghost keep = |v: VideoInfo| retained(v, now@);
    let mut kept: Vec<VideoInfo> = Vec::new();
    let mut at: usize = 0;
    proof {
        lemma_filter_empty(keep);
        assert(videos@.take(0) =~= Seq::<VideoInfo>::empty());
    }
    while at < videos.len()
        invariant
            at <= videos.len(),
            keep == |v: VideoInfo| retained(v, now@),
            kept@ == videos@.take(at as int).filter(keep),
        decreases videos.len() - at,
    {
        proof {
            lemma_filter_take_next(videos@, keep, at as int);
        }
        if videos[at].is_retained(now) {
            kept.push(videos[at].clone());
        }
        at += 1;
    }
    proof {
        assert(videos@.take(at as int) =~= videos@);
    }
    kept
}

/// Those of `videos` that are handed on by the local clock, in their order.
pub fn upcoming(videos: &Vec<VideoInfo>) -> (r: Vec<VideoInfo>)
    ensures
        exists|now: MomentView| now.valid() && r@ == #[trigger] retained_of(videos@, now),
{
    let now = Moment::now();
    filter_upcoming(videos, &now)
}

/// A record of a broadcast that has ended is not handed on, whenever it is
/// looked at and whatever else it says.
pub proof fn lemma_ended_is_dropped(video: VideoInfo, now: MomentView)
    requires
        video.details.actual_end_time is Some,
    ensures
        !retained(video, now),
{
}

/// A broadcast that has no end and is scheduled for an instant strictly in the
/// future of `now` is not over at `now`, however near that instant is; a
/// record without end and schedule is not over either.
pub proof fn lemma_later_start_is_not_finished(video: VideoInfo, now: MomentView)
    requires
        video.details.actual_end_time is None,
        video.details.scheduled_start_time matches Some(start) ==> start@.timestamp
            > now.timestamp || (start@.timestamp == now.timestamp && start@.nanos > now.nanos),
    ensures
        !video.finished_at(now),
        retained(video, now) == (!video.too_long_span() && !title_ignored(
            video.snippet.title.0@,
        )),
{
}

/// A record of a broadcast whose scheduled time has come is not handed on.
pub proof fn lemma_started_is_dropped(video: VideoInfo, now: MomentView)
    requires
        video.details.scheduled_start_time matches Some(start) && start@.not_after(now),
    ensures
        !retained(video, now),
{
}

/// A record of a broadcast that is scheduled for a later calendar year than
/// the one in which the video was published is not handed on.
pub proof fn lemma_year_span_is_dropped(video: VideoInfo, now: MomentView)
    requires
        video.details.scheduled_start_time matches Some(start) && start@.year
            > video.snippet.published_at@.year,
    ensures
        !retained(video, now),
{
}

/// The filter takes nothing but records, each at most as often as it came,
/// and every record that it hands on is one that is handed on.
pub proof fn lemma_filter_hands_on_retained(videos: Seq<VideoInfo>, now: MomentView, at: int)
    requires
        0 <= at < retained_of(videos, now).len(),
    ensures
        retained(retained_of(videos, now)[at], now),
        videos.contains(retained_of(videos, now)[at]),
        retained_of(videos, now).len() <= videos.len(),
{
    let keep = |v: VideoInfo| retained(v, now);
    videos.lemma_filter_pred(keep, at);
    videos.lemma_filter_len(keep);
    assert(videos.filter(keep).contains(videos.filter(keep)[at]));
    videos.lemma_filter_contains_rev(keep, videos.filter(keep)[at]);
}

} // verus!
