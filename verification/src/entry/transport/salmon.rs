//! The messages of the storage service.

use vstd::prelude::*;

verus! {

/// An instant on the wire: seconds since 1970-01-01 00:00:00 UTC and the
/// nanoseconds that follow them.
#[derive(Debug, Clone, Copy, PartialEq, Eq, Hash)]
pub struct Timestamp {
    pub seconds: i64,
    pub nanos: i32,
}

/// A group that people belong to.
#[derive(Debug, PartialEq, Eq, Hash)]
pub struct Affiliation {
    pub affiliation_id: i64,
    pub name: String,
    pub override_at: i64,
}

/// A person.
#[derive(Debug, PartialEq, Eq, Hash)]
pub struct Liver {
    pub liver_id: i64,
    pub name: String,
    pub affiliation_id: Option<i64>,
    pub override_at: i64,
}

/// A channel that a person runs.
#[derive(Debug, PartialEq, Eq, Hash)]
pub struct Channel {
    pub channel_id: String,
    pub liver_id: Option<i64>,
    pub published_at: Option<Timestamp>,
    pub description: String,
    pub logo_url: String,
    pub override_at: i64,
}

/// A broadcast that is scheduled or running.
#[derive(Debug, PartialEq, Eq, Hash)]
pub struct Live {
    pub video_id: String,
    pub channel_id: Option<String>,
    pub title: String,
    pub description: String,
    pub published_at: Option<Timestamp>,
    pub updated_at: Option<Timestamp>,
    pub will_start_at: Option<Timestamp>,
    pub started_at: Option<Timestamp>,
    pub override_at: i64,
}

} // verus!
