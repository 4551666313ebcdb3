use vstd::prelude::*;

use crate::entries::{entries_map, lemma_entries_push};
use crate::level::Level;

verus! {

/// A point in UTC time: whole seconds since the Unix epoch and the
/// sub-second part in nanoseconds (at or above one billion only inside a
/// leap second).
#[derive(Clone, Copy, Debug, PartialEq, Eq, Structural, Hash)]
pub struct Timestamp {
    pub secs: i64,
    pub nanos: u32,
}

impl Timestamp {
    /// Strict chronological order.
    pub open spec fn before(self, other: Timestamp) -> bool {
        self.secs < other.secs || (self.secs == other.secs && self.nanos < other.nanos)
    }

    /// The instant `secs` seconds after the epoch.
    pub fn from_secs(secs: i64) -> (r: Timestamp)
        ensures
            r == (Timestamp { secs, nanos: 0 }),
    {
        Timestamp { secs, nanos: 0 }
    }

    /// Whether `self` comes strictly before `other`.
    pub fn is_before(&self, other: &Timestamp) -> (r: bool)
        ensures
            r == self.before(*other),
    {
        self.secs < other.secs || (self.secs == other.secs && self.nanos < other.nanos)
    }
}

/// A structured value recorded for a field of an event.
#[derive(Clone, Debug, PartialEq)]
pub enum FieldValue {
    Null,
    Bool(bool),
    Int(i64),
    UInt(u64),
    /// A binary64 floating-point number, held as its IEEE 754 bit pattern.
    FloatBits(u64),
    Text(String),
}

/// One application occurrence. `tags` and `extra` are maps written as entry
/// lists, a later entry overriding an earlier one with the same key.
#[derive(Clone, Debug)]
pub struct Event {
    pub event_id: String,
    pub timestamp: Timestamp,
    pub platform: String,
    pub level: Level,
    pub logger: Option<String>,
    pub transaction: Option<String>,
    pub server_name: Option<String>,
    pub release: Option<String>,
    pub environment: Option<String>,
    pub message: Option<String>,
    pub tags: Vec<(String, String)>,
    pub extra: Vec<(String, FieldValue)>,
}

impl Event {
    /// The event's tags as a map from key to value.
    pub open spec fn tag_map(self) -> Map<Seq<char>, String> {
        entries_map(self.tags@)
    }

    /// The event's extra data as a map from key to value.
    pub open spec fn extra_map(self) -> Map<Seq<char>, FieldValue> {
        entries_map(self.extra@)
    }

    /// A fresh event with the given identifier and creation time, platform
    /// `rust`, level `Info`, and nothing else set.
    pub fn new(event_id: String, timestamp: Timestamp) -> (r: Event)
        ensures
            r.event_id == event_id,
            r.timestamp == timestamp,
            r.platform@ == "rust"@,
            r.level == Level::Info,
            r.logger.is_none(),
            r.transaction.is_none(),
            r.server_name.is_none(),
            r.release.is_none(),
            r.environment.is_none(),
            r.message.is_none(),
            r.tags@.len() == 0,
            r.extra@.len() == 0,
    {
        Event {
            event_id,
            timestamp,
            platform: String::from_str("rust"),
            level: Level::Info,
            logger: None,
            transaction: None,
            server_name: None,
            release: None,
            environment: None,
            message: None,
            tags: Vec::new(),
            extra: Vec::new(),
        }
    }

    /// The same event with `message` as its message.
    pub fn with_message(self, message: String) -> (r: Event)
        ensures
            r == (Event { message: Some(message), ..self }),
    {
        Event { message: Some(message), ..self }
    }

    /// The same event at `level`.
    pub fn with_level(self, level: Level) -> (r: Event)
        ensures
            r == (Event { level, ..self }),
    {
        Event { level, ..self }
    }

    /// The same event with tag `key` set to `value`.
    pub fn with_tag(self, key: String, value: String) -> (r: Event)
        ensures
            r.tags@ == self.tags@.push((key, value)),
            r.tag_map() == self.tag_map().insert(key@, value),
            r == (Event { tags: r.tags, ..self }),
    {
        let mut e = self;
        proof {
            lemma_entries_push(e.tags@, (key, value));
        }
        e.tags.push((key, value));
        e
    }

    /// The same event with extra field `key` set to `value`.
    pub fn with_extra(self, key: String, value: FieldValue) -> (r: Event)
        ensures
            r.extra@ == self.extra@.push((key, value)),
            r.extra_map() == self.extra_map().insert(key@, value),
            r == (Event { extra: r.extra, ..self }),
    {
        let mut e = self;
        proof {
            lemma_entries_push(e.extra@, (key, value));
        }
        e.extra.push((key, value));
        e
    }
}

} // verus!
