use vstd::prelude::*;

verus! {

/// Failures of collection and of its configuration. Each carries a
/// description of the cause.
#[derive(Clone, Debug)]
pub enum CollectorError {
    Nostr(String),
    NostrSdk(String),
    EventBuilder(String),
    Json(String),
    SentryStr(String),
    Collection(String),
    Filter(String),
}

impl CollectorError {
    pub open spec fn spec_message(self) -> Seq<char> {
        match self {
            CollectorError::Nostr(m) => "Nostr error: "@ + m@,
            CollectorError::NostrSdk(m) => "Nostr SDK error: "@ + m@,
            CollectorError::EventBuilder(m) => "Nostr event builder error: "@ + m@,
            CollectorError::Json(m) => "JSON parsing error: "@ + m@,
            CollectorError::SentryStr(m) => "SentryStr core error: "@ + m@,
            CollectorError::Collection(m) => "Collection error: "@ + m@,
            CollectorError::Filter(m) => "Filter error: "@ + m@,
        }
    }

    /// The error as text: its kind, then its description.
    pub fn message(&self) -> (r: String)
        ensures
            r@ == self.spec_message(),
    {
        match self {
            CollectorError::Nostr(m) => String::from_str("Nostr error: ").concat(m.as_str()),
            CollectorError::NostrSdk(m) => String::from_str("Nostr SDK error: ").concat(m.as_str()),
            CollectorError::EventBuilder(m) => String::from_str("Nostr event builder error: ").concat(m.as_str()),
            CollectorError::Json(m) => String::from_str("JSON parsing error: ").concat(m.as_str()),
            CollectorError::SentryStr(m) => String::from_str("SentryStr core error: ").concat(m.as_str()),
            CollectorError::Collection(m) => String::from_str("Collection error: ").concat(m.as_str()),
            CollectorError::Filter(m) => String::from_str("Filter error: ").concat(m.as_str()),
        }
    }
}

/// Failures of setting up capture. Each carries a description of the cause.
#[derive(Clone, Debug)]
pub enum TracingError {
    SentryStr(String),
    NostrSdk(String),
    Config(String),
    Init(String),
    FieldExtraction(String),
}

impl TracingError {
    pub open spec fn spec_message(self) -> Seq<char> {
        match self {
            TracingError::SentryStr(m) => "SentryStr core error: "@ + m@,
            TracingError::NostrSdk(m) => "Nostr SDK error: "@ + m@,
            TracingError::Config(m) => "Configuration error: "@ + m@,
            TracingError::Init(m) => "Initialization error: "@ + m@,
            TracingError::FieldExtraction(m) => "Field extraction error: "@ + m@,
        }
    }

    /// The error as text: its kind, then its description.
    pub fn message(&self) -> (r: String)
        ensures
            r@ == self.spec_message(),
    {
        match self {
            TracingError::SentryStr(m) => String::from_str("SentryStr core error: ").concat(m.as_str()),
            TracingError::NostrSdk(m) => String::from_str("Nostr SDK error: ").concat(m.as_str()),
            TracingError::Config(m) => String::from_str("Configuration error: ").concat(m.as_str()),
            TracingError::Init(m) => String::from_str("Initialization error: ").concat(m.as_str()),
            TracingError::FieldExtraction(m) => String::from_str("Field extraction error: ").concat(m.as_str()),
        }
    }
}

} // verus!
