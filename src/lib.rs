//! Filtering, collection and live distribution of structured application
//! events carried over a relay network, with a best-effort alert side channel
//! and an adapter that turns structured log records into events.

pub mod alert;
pub mod api;
pub mod capture;
pub mod collector;
pub mod entries;
pub mod error;
pub mod event;
pub mod filter;
pub mod level;
pub mod options;
pub mod parse;
pub mod setup;

pub use alert::{AlertConfig, PrivateMessageConfig};
pub use api::{ApiError, EventQuery};
pub use capture::{
    convert_tracing_level, create_sentrystr_event, extract_event_metadata, CapturedRecord, FieldVisitor,
    RecordMetadata, SentryStrLayer, TraceLevel,
};
pub use collector::{
    alert_flags, author_filter, collect_matching, CollectedEvent, Forwarder, Notification, RawMessage, StreamAction,
    StreamInput, TransportQuery,
};
pub use error::{CollectorError, TracingError};
pub use event::{Event, FieldValue, Timestamp};
pub use filter::EventFilter;
pub use level::Level;
pub use options::{build_private_message_config, FilterOptions};
pub use parse::{parse_level, parse_tag};
pub use setup::{CapturePlan, Config, DirectMessageConfig, SentryStrTracingBuilder};
