//! What is handed to the storage service, and how it is made from what was
//! fetched.

pub mod salmon;

use crate::clock::{Moment, MomentView};
use crate::entry::request::{ChannelInfo, VideoInfo};
use crate::entry::transport::salmon::{Affiliation, Channel, Live, Liver, Timestamp};
use crate::models::{AffiliationEntry, AffiliationEntryView, LiverEntry, LiverEntryView};
use vstd::prelude::*;
use vstd::std_specs::convert::FromSpecImpl;
use vstd::string::StringExecFns;

verus! {

/// Why nothing could be handed to the storage service.
#[derive(Debug, Clone, Copy, PartialEq, Eq, Hash)]
pub enum GrpcError {
    /// No connection could be made to the address.
    ConnectionEstablished(&'static str),
}

impl GrpcError {
    /// The text that reports the error.
    pub fn message(&self) -> (r: String)
        ensures
            r@ == match self {
                GrpcError::ConnectionEstablished(address) => "cannot establish connection to "@
                    + address@,
            },
    {
        match self {
            GrpcError::ConnectionEstablished(address) => {
                let mut text = String::from_str("cannot establish connection to ");
                text.append(address);
                text
            },
        }
    }
}

/// The number that marks how fresh a message is: the year, month, day, hour
/// and minute of a moment, read as one decimal number. A year before the year
/// zero gives the negative of what its digits read.
pub open spec fn signature_of(moment: MomentView) -> int {
    let rest = moment.month * 1_000_000 + moment.day * 10_000 + moment.hour * 100 + moment.minute;
    if moment.year >= 0 {
        moment.year * 100_000_000 + rest
    } else {
        moment.year * 100_000_000 - rest
    }
}

/// The mark of how fresh a message is.
#[derive(Debug, Clone, Copy, PartialEq, Eq, Hash)]
pub struct UpdateSignature(pub i64);

impl UpdateSignature {
    /// The number of the signature.
    pub fn as_i64(&self) -> (r: i64)
        ensures
            r == self.0,
    {
        self.0
    }

    /// The signature of `moment`.
    pub fn at(moment: &Moment) -> (r: UpdateSignature)
        ensures
            r.0 == signature_of(moment@),
    {
        let year: i64 = moment.year() as i64;
        let rest: i64 = (moment.month() as i64) * 1_000_000 + (moment.day() as i64) * 10_000 + (
        moment.hour() as i64) * 100 + (moment.minute() as i64);
        if year >= 0 {
            UpdateSignature(year * 100_000_000 + rest)
        } else {
            UpdateSignature(year * 100_000_000 - rest)
        }
    }
}

impl Default for UpdateSignature {
    /// The signature of the present moment on the local clock.
    fn default() -> (r: Self)
        ensures
            exists|moment: MomentView| moment.valid() && r.0 == #[trigger] signature_of(moment),
    {
        let now = Moment::now();
        UpdateSignature::at(&now)
    }
}

/// The instant of a moment on the wire: its seconds and the nanoseconds that
/// follow them. Where the clock showed a leap second, with a thousand million
/// nanoseconds or more, the full second goes over into the seconds; only in
/// the last second that can be counted it stays with the nanoseconds.
pub open spec fn stamp_of(moment: MomentView) -> Timestamp {
    if moment.nanos >= 1_000_000_000 && moment.timestamp < i64::MAX {
        Timestamp {
            seconds: (moment.timestamp + 1) as i64,
            nanos: (moment.nanos - 1_000_000_000) as i32,
        }
    } else {
        Timestamp { seconds: moment.timestamp, nanos: moment.nanos as i32 }
    }
}

/// The instant of a moment on the wire, where there is a moment.
pub open spec fn optional_stamp_of(moment: Option<Moment>) -> Option<Timestamp> {
    match moment {
        Some(m) => Some(stamp_of(m@)),
        None => None,
    }
}

impl Timestamp {
    /// The instant of `moment` on the wire.
    pub fn of(moment: &Moment) -> (r: Timestamp)
        ensures
            r == stamp_of(moment@),
            moment@.nanos < 1_000_000_000 ==> r.seconds == moment@.timestamp && r.nanos
                == moment@.nanos,
    {
        let seconds = moment.timestamp();
        let nanos = moment.timestamp_subsec_nanos();
        if nanos >= 1_000_000_000 && seconds < i64::MAX {
            Timestamp { seconds: seconds + 1, nanos: (nanos - 1_000_000_000) as i32 }
        } else {
            Timestamp { seconds, nanos: nanos as i32 }
        }
    }

    /// The instant of `moment` on the wire, where there is one.
    pub fn of_optional(moment: &Option<Moment>) -> (r: Option<Timestamp>)
        ensures
            r == optional_stamp_of(*moment),
    {
        match moment {
            Some(m) => Some(Timestamp::of(m)),
            None => None,
        }
    }
}

impl Affiliation {
    /// The message says what `base` says, and is marked with `signature`.
    pub open spec fn describes(&self, base: AffiliationEntryView, signature: i64) -> bool {
        &&& self.affiliation_id == base.id
        &&& self.name@ == base.name
        &&& self.override_at == signature
    }

    /// The message for `base`, marked with `signature`.
    pub fn from_entry(base: AffiliationEntry, signature: UpdateSignature) -> (r: Affiliation)
        ensures
            r.describes(base@, signature.0),
    {
        Affiliation {
            affiliation_id: base.as_ref_id().breach_extract(),
            name: base.breach_extraction_name(),
            override_at: signature.as_i64(),
        }
    }

    /// The message, marked as one that takes its subject away.
    pub fn del_sign(self) -> (r: Self)
        ensures
            r == (Affiliation { override_at: -1i64, ..self }),
    {
        let mut marked = self;
        marked.override_at = -1;
        marked
    }
}

impl Liver {
    /// The message says what `base` says, is tied to `affiliation` and marked
    /// with `signature`.
    pub open spec fn describes(
        &self,
        base: LiverEntryView,
        affiliation: Option<i64>,
        signature: i64,
    ) -> bool {
        &&& self.liver_id == base.id
        &&& self.name@ == base.name
        &&& self.affiliation_id == affiliation
        &&& self.override_at == signature
    }

    /// The message for `base`, marked with `signature`, not yet tied to an
    /// affiliation.
    pub fn from_entry(base: LiverEntry, signature: UpdateSignature) -> (r: Liver)
        ensures
            r.describes(base@, None, signature.0),
    {
        Liver {
            liver_id: base.breach_extraction_id().breach_extract(),
            name: base.breach_extraction_name(),
            affiliation_id: None,
            override_at: signature.as_i64(),
        }
    }

    /// The message, marked as one that takes its subject away.
    pub fn del_sign(self) -> (r: Self)
        ensures
            r == (Liver { override_at: -1i64, ..self }),
    {
        let mut marked = self;
        marked.override_at = -1;
        marked
    }
}

impl Channel {
    /// The message says what `base` says, is tied to `liver` and marked with
    /// `signature`.
    pub open spec fn describes(&self, base: ChannelInfo, liver: Option<i64>, signature: i64) -> bool {
        &&& self.channel_id@ == base.id@
        &&& self.liver_id == liver
        &&& self.published_at == Some(stamp_of(base.snippet.published_at@))
        &&& self.description@ == base.snippet.description@
        &&& self.logo_url@ == base.snippet.thumbnails.high.url@
        &&& self.override_at == signature
    }

    /// The message for `base`, marked with `signature`, not yet tied to a
    /// person.
    pub fn from_info(base: ChannelInfo, signature: UpdateSignature) -> (r: Channel)
        ensures
            r.describes(base, None, signature.0),
    {
        Channel {
            channel_id: String::from_str(base.as_ref_id().as_ref()),
            liver_id: None,
            published_at: Some(Timestamp::of(base.as_ref_snippet().as_ref_published_at())),
            description: String::from_str(base.as_ref_snippet().as_ref_description()),
            logo_url: String::from_str(base.as_ref_snippet().as_ref_thumbnail()),
            override_at: signature.as_i64(),
        }
    }

    /// The message, marked as one that takes its subject away.
    pub fn del_sign(self) -> (r: Self)
        ensures
            r == (Channel { override_at: -1i64, ..self }),
    {
        let mut marked = self;
        marked.override_at = -1;
        marked
    }
}

impl Live {
    /// The message says what `base` says, and is marked as made at `now`.
    pub open spec fn describes(&self, base: VideoInfo, now: MomentView) -> bool {
        &&& self.video_id@ == base.id@
        &&& self.channel_id matches Some(id) && id@ == base.snippet.channel_id@
        &&& self.title@ == base.snippet.title.0@
        &&& self.description@ == base.snippet.description.0@
        &&& self.published_at == Some(stamp_of(base.snippet.published_at@))
        &&& self.updated_at == Some(stamp_of(now))
        &&& self.will_start_at == optional_stamp_of(base.details.scheduled_start_time)
        &&& self.started_at == optional_stamp_of(base.details.actual_start_time)
        &&& self.override_at == signature_of(now)
    }

    /// The message for `base`, made at the moment `now`.
    pub fn from_video(base: VideoInfo, now: &Moment) -> (r: Live)
        ensures
            r.describes(base, now@),
    {
        let details = base.as_ref_live_streaming_details();
        Live {
            video_id: String::from_str(base.as_ref_id().as_ref()),
            channel_id: Some(
                String::from_str(base.as_ref_snippet().as_ref_dependency_channel_id().as_ref()),
            ),
            title: String::from_str(base.as_ref_title()),
            description: String::from_str(base.as_ref_description()),
            published_at: Some(Timestamp::of(base.as_ref_snippet().as_ref_published_at())),
            updated_at: Some(Timestamp::of(now)),
            will_start_at: Timestamp::of_optional(details.as_ref_scheduled_start_time_optional()),
            started_at: Timestamp::of_optional(details.as_ref_actual_start_time_optional()),
            override_at: UpdateSignature::at(now).as_i64(),
        }
    }

    /// The message, marked as one that takes its subject away.
    pub fn del_sign(self) -> (r: Self)
        ensures
            r == (Live { override_at: -1i64, ..self }),
    {
        let mut marked = self;
        marked.override_at = -1;
        marked
    }
}

/// Ties a message to what it belongs to.
pub trait Applier<A>: Sized {
    /// The message after it was tied to `apply`.
    spec fn applied(self, apply: &A) -> Self;

    fn apply(self, apply: &A) -> (r: Self)
        ensures
            r == self.applied(apply),
    ;
}

impl Applier<AffiliationEntry> for Liver {
    open spec fn applied(self, apply: &AffiliationEntry) -> Self {
        Liver { affiliation_id: Some(apply@.id), ..self }
    }

    fn apply(self, apply: &AffiliationEntry) -> (r: Self) {
        let mut tied = self;
        tied.affiliation_id = Some(apply.breach_extraction_id().breach_extract());
        tied
    }
}

impl Applier<LiverEntry> for Channel {
    open spec fn applied(self, apply: &LiverEntry) -> Self {
        Channel { liver_id: Some(apply@.id), ..self }
    }

    fn apply(self, apply: &LiverEntry) -> (r: Self) {
        let mut tied = self;
        tied.liver_id = Some(apply.breach_extraction_id().breach_extract());
        tied
    }
}

/// The conversions below read the local clock for the mark of the message,
/// so that two conversions of one value may differ: no result is fixed for them,
/// and the contract of each says what holds of every result.
impl FromSpecImpl<AffiliationEntry> for Affiliation {
    open spec fn obeys_from_spec() -> bool {
        false
    }

    open spec fn from_spec(base: AffiliationEntry) -> Self {
        arbitrary()
    }
}

impl From<AffiliationEntry> for Affiliation {
    /// The message for `base`, marked with the signature of the present moment.
    fn from(base: AffiliationEntry) -> (r: Self)
        ensures
            exists|now: MomentView|
                now.valid() && r.describes(base@, #[trigger] signature_of(now) as i64),
    {
        let now = Moment::now();
        let made = Affiliation::from_entry(base, UpdateSignature::at(&now));
        proof {
            assert(made.describes(base@, signature_of(now@) as i64));
        }
        made
    }
}

impl FromSpecImpl<LiverEntry> for Liver {
    open spec fn obeys_from_spec() -> bool {
        false
    }

    open spec fn from_spec(base: LiverEntry) -> Self {
        arbitrary()
    }
}

impl From<LiverEntry> for Liver {
    /// The message for `base`, marked with the signature of the present moment
    /// and not yet tied to an affiliation.
    fn from(base: LiverEntry) -> (r: Self)
        ensures
            exists|now: MomentView|
                now.valid() && r.describes(base@, None, #[trigger] signature_of(now) as i64),
    {
        let now = Moment::now();
        let made = Liver::from_entry(base, UpdateSignature::at(&now));
        proof {
            assert(made.describes(base@, None, signature_of(now@) as i64));
        }
        made
    }
}

impl FromSpecImpl<ChannelInfo> for Channel {
    open spec fn obeys_from_spec() -> bool {
        false
    }

    open spec fn from_spec(base: ChannelInfo) -> Self {
        arbitrary()
    }
}

impl From<ChannelInfo> for Channel {
    /// The message for `base`, marked with the signature of the present moment
    /// and not yet tied to a person.
    fn from(base: ChannelInfo) -> (r: Self)
        ensures
            exists|now: MomentView|
                now.valid() && r.describes(base, None, #[trigger] signature_of(now) as i64),
    {
        let now = Moment::now();
        let made = Channel::from_info(base, UpdateSignature::at(&now));
        proof {
            assert(made.describes(base, None, signature_of(now@) as i64));
        }
        made
    }
}

impl FromSpecImpl<VideoInfo> for Live {
    open spec fn obeys_from_spec() -> bool {
        false
    }

    open spec fn from_spec(base: VideoInfo) -> Self {
        arbitrary()
    }
}

impl From<VideoInfo> for Live {
    /// The message for `base`, made at the present moment.
    fn from(base: VideoInfo) -> (r: Self)
        ensures
            exists|now: MomentView| now.valid() && #[trigger] r.describes(base, now),
    {
        let now = Moment::now();
        Live::from_video(base, &now)
    }
}

} // verus!
