use vstd::prelude::*;

use crate::alert::{alert_due, alert_wanted, AlertConfig};
use crate::entries::{entries_map, find_entry, lemma_entries_push};
use crate::event::{Event, FieldValue, Timestamp};
use crate::level::Level;

verus! {

/// Severity of a log record as the instrumentation reports it, from the
/// most verbose (`Trace`) to the most severe (`Error`).
#[derive(Clone, Copy, Debug, PartialEq, Eq, Structural, Hash)]
pub enum TraceLevel {
    Trace,
    Debug,
    Info,
    Warn,
    Error,
}

impl TraceLevel {
    /// Position in the severity order, `Trace` lowest.
    pub open spec fn rank(self) -> nat {
        match self {
            TraceLevel::Trace => 0,
            TraceLevel::Debug => 1,
            TraceLevel::Info => 2,
            TraceLevel::Warn => 3,
            TraceLevel::Error => 4,
        }
    }

    pub open spec fn spec_name(self) -> Seq<char> {
        match self {
            TraceLevel::Trace => "TRACE"@,
            TraceLevel::Debug => "DEBUG"@,
            TraceLevel::Info => "INFO"@,
            TraceLevel::Warn => "WARN"@,
            TraceLevel::Error => "ERROR"@,
        }
    }

    /// Numeric severity, 0 for `Trace` up to 4 for `Error`.
    pub fn severity(&self) -> (r: u8)
        ensures
            r as nat == self.rank(),
    {
        match self {
            TraceLevel::Trace => 0,
            TraceLevel::Debug => 1,
            TraceLevel::Info => 2,
            TraceLevel::Warn => 3,
            TraceLevel::Error => 4,
        }
    }

    /// The level's upper-case name.
    pub fn name(&self) -> (r: String)
        ensures
            r@ == self.spec_name(),
    {
        match self {
            TraceLevel::Trace => String::from_str("TRACE"),
            TraceLevel::Debug => String::from_str("DEBUG"),
            TraceLevel::Info => String::from_str("INFO"),
            TraceLevel::Warn => String::from_str("WARN"),
            TraceLevel::Error => String::from_str("ERROR"),
        }
    }
}

/// The single conversion from instrumentation severity to event severity.
pub open spec fn spec_convert_level(level: TraceLevel) -> Level {
    match level {
        TraceLevel::Trace => Level::Debug,
        TraceLevel::Debug => Level::Debug,
        TraceLevel::Info => Level::Info,
        TraceLevel::Warn => Level::Warning,
        TraceLevel::Error => Level::Error,
    }
}

/// Maps a record's severity to an event level: `Trace` and `Debug` to
/// `Debug`, `Info` to `Info`, `Warn` to `Warning`, `Error` to `Error`.
pub fn convert_tracing_level(level: &TraceLevel) -> (r: Level)
    ensures
        r == spec_convert_level(*level),
{
    match level {
        TraceLevel::Trace => Level::Debug,
        TraceLevel::Debug => Level::Debug,
        TraceLevel::Info => Level::Info,
        TraceLevel::Warn => Level::Warning,
        TraceLevel::Error => Level::Error,
    }
}

/// The conversion keeps the order: a more severe record never becomes a
/// less severe event.
pub proof fn lemma_convert_level_monotonic(a: TraceLevel, b: TraceLevel)
    requires
        a.rank() <= b.rank(),
    ensures
        spec_convert_level(a).rank() <= spec_convert_level(b).rank(),
{
}

/// Whether a 64-bit pattern encodes a finite binary64 number (its exponent
/// bits are not all ones).
pub open spec fn finite_bits(bits: u64) -> bool {
    (bits / 0x10_0000_0000_0000u64) % 0x800 != 0x7ff
}

/// What a log record's fields become: named values, later ones overriding
/// earlier ones, and the text of a `message` field recorded as a string.
#[derive(Debug)]
pub struct FieldVisitor {
    pub fields: Vec<(String, FieldValue)>,
    pub message: Option<String>,
}

/// The message of a record: an explicit message, else the text of a field
/// named `message`, else a fixed fallback.
pub open spec fn message_of(v: FieldVisitor) -> Seq<char> {
    match v.message {
        Some(m) => m@,
        None => {
            let fm = entries_map(v.fields@);
            if fm.contains_key("message"@) && fm["message"@] is Text {
                fm["message"@]->Text_0@
            } else {
                "No message"@
            }
        },
    }
}

impl FieldVisitor {
    pub open spec fn field_map(self) -> Map<Seq<char>, FieldValue> {
        entries_map(self.fields@)
    }

    /// A visitor with nothing recorded.
    pub fn new() -> (r: FieldVisitor)
        ensures
            r.fields@.len() == 0,
            r.message.is_none(),
    {
        FieldVisitor { fields: Vec::new(), message: None }
    }

    fn record(&mut self, name: &str, value: FieldValue)
        ensures
            final(self).fields@.drop_last() == old(self).fields@,
            final(self).fields@.last().0@ == name@,
            final(self).fields@.last().1 == value,
            final(self).field_map() == old(self).field_map().insert(name@, value),
            final(self).fields@.len() == old(self).fields@.len() + 1,
            final(self).message == old(self).message,
    {
        let key = name.to_owned();
        proof {
            lemma_entries_push(self.fields@, (key, value));
        }
        self.fields.push((key, value));
        proof {
            assert(self.fields@.drop_last() =~= old(self).fields@);
        }
    }

    /// Records a signed integer field.
    pub fn record_i64(&mut self, name: &str, value: i64)
        ensures
            final(self).field_map() == old(self).field_map().insert(name@, FieldValue::Int(value)),
            final(self).message == old(self).message,
    {
        self.record(name, FieldValue::Int(value));
    }

    /// Records an unsigned integer field.
    pub fn record_u64(&mut self, name: &str, value: u64)
        ensures
            final(self).field_map() == old(self).field_map().insert(name@, FieldValue::UInt(value)),
            final(self).message == old(self).message,
    {
        self.record(name, FieldValue::UInt(value));
    }

    /// Records a boolean field.
    pub fn record_bool(&mut self, name: &str, value: bool)
        ensures
            final(self).field_map() == old(self).field_map().insert(name@, FieldValue::Bool(value)),
            final(self).message == old(self).message,
    {
        self.record(name, FieldValue::Bool(value));
    }

    /// Records a binary64 field given by its bit pattern; a value that is
    /// not finite (infinite or NaN) is recorded as the number 0.
    pub fn record_f64_bits(&mut self, name: &str, bits: u64)
        ensures
            final(self).field_map() == old(self).field_map().insert(
                name@,
                if finite_bits(bits) {
                    FieldValue::FloatBits(bits)
                } else {
                    FieldValue::UInt(0)
                },
            ),
            final(self).message == old(self).message,
    {
        let exponent: u64 = (bits / 0x10_0000_0000_0000u64) % 0x800;
        if exponent != 0x7ff {
            self.record(name, FieldValue::FloatBits(bits));
        } else {
            self.record(name, FieldValue::UInt(0));
        }
    }

    /// Records a string field; one named `message` also becomes the
    /// record's message.
    pub fn record_str(&mut self, name: &str, value: &str)
        ensures
            final(self).field_map().dom() == old(self).field_map().dom().insert(name@),
            final(self).field_map()[name@] is Text,
            final(self).field_map()[name@]->Text_0@ == value@,
            forall|k: Seq<char>| k != name@ && #[trigger] old(self).field_map().contains_key(k)
                ==> final(self).field_map()[k] == old(self).field_map()[k],
            final(self).message == if name@ == "message"@ {
                Some(final(self).field_map()[name@]->Text_0)
            } else {
                old(self).message
            },
    {
        let text = value.to_owned();
        if name.to_owned() == String::from_str("message") {
            self.message = Some(text.clone());
        }
        self.record(name, FieldValue::Text(text));
    }

    /// Records a field by its debug rendering, as text.
    pub fn record_debug(&mut self, name: &str, rendered: String)
        ensures
            final(self).field_map() == old(self).field_map().insert(name@, FieldValue::Text(rendered)),
            final(self).message == old(self).message,
    {
        self.record(name, FieldValue::Text(rendered));
    }

    /// The record's message: the one recorded as `message`, else the text of
    /// a `message` field, else `No message`.
    pub fn extract_message(&self) -> (r: String)
        ensures
            r@ == message_of(*self),
    {
        match &self.message {
            Some(m) => m.clone(),
            None => {
                let key = String::from_str("message");
                match find_entry(&self.fields, &key) {
                    Some(FieldValue::Text(t)) => t.clone(),
                    _ => String::from_str("No message"),
                }
            },
        }
    }
}

/// Static call-site information of a log record.
#[derive(Clone, Debug)]
pub struct RecordMetadata {
    pub target: String,
    pub module: Option<String>,
    pub file: Option<String>,
    pub line: Option<u32>,
    pub level: TraceLevel,
}

/// An optional text as a field value, `Null` when absent.
pub open spec fn text_or_null(s: Option<String>) -> FieldValue {
    match s {
        None => FieldValue::Null,
        Some(t) => FieldValue::Text(t),
    }
}

fn text_or_null_of(s: &Option<String>) -> (r: FieldValue)
    ensures
        r == text_or_null(*s),
{
    match s {
        None => FieldValue::Null,
        Some(t) => FieldValue::Text(t.clone()),
    }
}

/// `r` holds the call-site fields of `m`, each key after `prefix`: the
/// target, module and file as text (`Null` where unknown), the line as a
/// number (`Null` where unknown) and the level's name, in that order.
pub open spec fn describes_call_site(prefix: Seq<char>, r: Seq<(String, FieldValue)>, m: RecordMetadata) -> bool {
    &&& r.len() >= 5
    &&& r[0].0@ == prefix + "target"@ && r[0].1 == FieldValue::Text(m.target)
    &&& r[1].0@ == prefix + "module_path"@ && r[1].1 == text_or_null(m.module)
    &&& r[2].0@ == prefix + "file"@ && r[2].1 == text_or_null(m.file)
    &&& r[3].0@ == prefix + "line"@ && r[3].1 == match m.line {
        None => FieldValue::Null,
        Some(n) => FieldValue::UInt(n as u64),
    }
    &&& r[4].0@ == prefix + "level"@ && r[4].1 is Text && r[4].1->Text_0@ == m.level.spec_name()
}

/// The call-site fields of a record: `target`, `module`, `file`,
/// `line` (`Null` where unknown) and the textual `level`, in that order.
pub fn extract_event_metadata(metadata: &RecordMetadata) -> (r: Vec<(String, FieldValue)>)
    ensures
        r@.len() == 5,
        describes_call_site(Seq::empty(), r@, *metadata),
{
    let mut fields: Vec<(String, FieldValue)> = Vec::new();
    fields.push((String::from_str("target"), FieldValue::Text(metadata.target.clone())));
    fields.push((String::from_str("module_path"), text_or_null_of(&metadata.module)));
    fields.push((String::from_str("file"), text_or_null_of(&metadata.file)));
    let line = match metadata.line {
        None => FieldValue::Null,
        Some(n) => FieldValue::UInt(n as u64),
    };
    fields.push((String::from_str("line"), line));
    fields.push((String::from_str("level"), FieldValue::Text(metadata.level.name())));
    fields
}

/// Key under which a call-site field is stored in an event's extra data.
pub open spec fn meta_key(key: Seq<char>) -> Seq<char> {
    "meta_"@ + key
}

/// Builds the event of a record: a fresh event with `message` and `level`,
/// then each of `fields` as extra data under its own name, then each of
/// `metadata_fields` under its name prefixed with `meta_`.
pub fn create_sentrystr_event(
    message: String,
    level: Level,
    fields: Vec<(String, FieldValue)>,
    metadata_fields: Vec<(String, FieldValue)>,
    event_id: String,
    timestamp: Timestamp,
) -> (r: Event)
    ensures
        r.event_id == event_id,
        r.timestamp == timestamp,
        r.platform@ == "rust"@,
        r.level == level,
        r.message == Some(message),
        r.logger.is_none() && r.transaction.is_none() && r.server_name.is_none(),
        r.release.is_none() && r.environment.is_none(),
        r.tags@.len() == 0,
        r.extra@.len() == fields@.len() + metadata_fields@.len(),
        forall|i: int| 0 <= i < fields@.len() ==> r.extra@[i] == fields@[i],
        forall|j: int|
            0 <= j < metadata_fields@.len() ==> (#[trigger] r.extra@[fields@.len() + j]).0@ == meta_key(
                metadata_fields@[j].0@,
            ) && r.extra@[fields@.len() + j].1 == metadata_fields@[j].1,
{
    let mut event = Event::new(event_id, timestamp).with_message(message).with_level(level);
    let ghost base = event;
    let mut extra = fields;
    let ghost given = extra@;
    let mut rest = metadata_fields;
    let ghost meta = rest@;
    assert(meta.len() == rest.len());
    let mut j: usize = 0;
    while rest.len() > 0
        invariant
            j + rest@.len() == meta.len(),
            meta.len() <= usize::MAX,
            rest@ == meta.subrange(j as int, meta.len() as int),
            extra@.len() == given.len() + j,
            forall|i: int| 0 <= i < given.len() ==> extra@[i] == given[i],
            forall|k: int|
                0 <= k < j ==> (#[trigger] extra@[given.len() + k]).0@ == meta_key(meta[k].0@)
                    && extra@[given.len() + k].1 == meta[k].1,
        decreases rest.len(),
    {
        let (key, value) = rest.remove(0);
        let prefixed = String::from_str("meta_").concat(key.as_str());
        extra.push((prefixed, value));
        j = j + 1;
        proof {
            assert(rest@ =~= meta.subrange(j as int, meta.len() as int));
        }
    }
    event.extra = extra;
    event
}

/// The entries of `s` whose key is not `message`, in order.
pub open spec fn without_message(s: Seq<(String, FieldValue)>) -> Seq<(String, FieldValue)>
    decreases s.len(),
{
    if s.len() == 0 {
        Seq::empty()
    } else if s.last().0@ == "message"@ {
        without_message(s.drop_last())
    } else {
        without_message(s.drop_last()).push(s.last())
    }
}

/// The record fields that go into an event's extra data: none when fields
/// are dropped, otherwise every field but `message` (which becomes the
/// event's message).
pub open spec fn kept_fields(keep: bool, s: Seq<(String, FieldValue)>) -> Seq<(String, FieldValue)> {
    if keep {
        without_message(s)
    } else {
        Seq::empty()
    }
}

/// No entry left by `without_message` has the key `message`.
pub proof fn lemma_without_message_excludes(s: Seq<(String, FieldValue)>)
    ensures
        forall|i: int| 0 <= i < without_message(s).len() ==> (#[trigger] without_message(s)[i]).0@ != "message"@,
    decreases s.len(),
{
    if s.len() > 0 {
        let prev = without_message(s.drop_last());
        lemma_without_message_excludes(s.drop_last());
        if s.last().0@ != "message"@ {
            assert forall|i: int| 0 <= i < prev.len() + 1 implies (#[trigger] prev.push(s.last())[i]).0@ != "message"@ by {
                if i < prev.len() {
                    assert(prev.push(s.last())[i] == prev[i]);
                }
            }
        }
    }
}

/// Drops the entries keyed `message`, keeping the order of the rest.
fn fields_without_message(fields: Vec<(String, FieldValue)>) -> (r: Vec<(String, FieldValue)>)
    ensures
        r@ == without_message(fields@),
{
    let ghost all = fields@;
    let mut rest = fields;
    let mut out: Vec<(String, FieldValue)> = Vec::new();
    let mut j: usize = 0;
    assert(all.len() == rest.len());
    let message_key = String::from_str("message");
    while rest.len() > 0
        invariant
            j + rest@.len() == all.len(),
            all.len() <= usize::MAX,
            rest@ == all.subrange(j as int, all.len() as int),
            out@ == without_message(all.subrange(0, j as int)),
            message_key@ == "message"@,
        decreases rest.len(),
    {
        let (key, value) = rest.remove(0);
        proof {
            assert(all[j as int] == (key, value));
            assert(all.subrange(0, j + 1).drop_last() =~= all.subrange(0, j as int));
        }
        if !(key == message_key) {
            out.push((key, value));
        }
        j = j + 1;
        proof {
            assert(rest@ =~= all.subrange(j as int, all.len() as int));
        }
    }
    proof {
        assert(all.subrange(0, j as int) =~= all);
    }
    out
}

/// Capture settings: the least severe record that is turned into an event,
/// whether record fields and call-site fields are kept, and alerting.
#[derive(Clone, Debug)]
pub struct SentryStrLayer {
    pub min_level: Option<TraceLevel>,
    pub include_fields: bool,
    pub include_metadata: bool,
    pub alert: Option<AlertConfig>,
}

/// An event made from a record, and whether it is also to be alerted.
#[derive(Debug)]
pub struct CapturedRecord {
    pub event: Event,
    pub alert: bool,
}

impl SentryStrLayer {
    /// Every record, with its fields and call-site fields, and no alerting.
    pub fn new() -> (r: SentryStrLayer)
        ensures
            r.min_level.is_none(),
            r.include_fields,
            r.include_metadata,
            r.alert.is_none(),
    {
        SentryStrLayer { min_level: None, include_fields: true, include_metadata: true, alert: None }
    }

    /// Alerts on captured events as `config` says.
    pub fn with_direct_messaging(self, config: AlertConfig) -> (r: SentryStrLayer)
        ensures
            r == (SentryStrLayer { alert: Some(config), ..self }),
    {
        SentryStrLayer { alert: Some(config), ..self }
    }

    /// Drops records less severe than `level`.
    pub fn with_min_level(self, level: TraceLevel) -> (r: SentryStrLayer)
        ensures
            r == (SentryStrLayer { min_level: Some(level), ..self }),
    {
        SentryStrLayer { min_level: Some(level), ..self }
    }

    /// Keeps (or drops) the record's own fields.
    pub fn with_fields(self, keep: bool) -> (r: SentryStrLayer)
        ensures
            r == (SentryStrLayer { include_fields: keep, ..self }),
    {
        SentryStrLayer { include_fields: keep, ..self }
    }

    /// Keeps (or drops) the call-site fields.
    pub fn with_metadata(self, keep: bool) -> (r: SentryStrLayer)
        ensures
            r == (SentryStrLayer { include_metadata: keep, ..self }),
    {
        SentryStrLayer { include_metadata: keep, ..self }
    }

    pub open spec fn passes_gate(self, level: TraceLevel) -> bool {
        match self.min_level {
            None => true,
            Some(min) => level.rank() >= min.rank(),
        }
    }

    /// Whether a record at `level` is at least as severe as the minimum.
    pub fn should_process_event(&self, level: &TraceLevel) -> (r: bool)
        ensures
            r == self.passes_gate(*level),
    {
        match &self.min_level {
            None => true,
            Some(min) => level.severity() >= min.severity(),
        }
    }

    /// Turns a record into an event, or `None` when the record is below the
    /// minimum level. The event carries the record's message and converted
    /// level, its fields (if kept) and its call-site fields under `meta_`
    /// keys (if kept); the flag says whether it is to be alerted.
    pub fn capture(
        &self,
        visitor: FieldVisitor,
        metadata: &RecordMetadata,
        event_id: String,
        timestamp: Timestamp,
    ) -> (r: Option<CapturedRecord>)
        ensures
            r.is_some() == self.passes_gate(metadata.level),
            r.is_some() ==> {
                let c = r.unwrap();
                &&& c.event.event_id == event_id
                &&& c.event.timestamp == timestamp
                &&& c.event.message.is_some()
                &&& c.event.message.unwrap()@ == message_of(visitor)
                &&& c.event.level == spec_convert_level(metadata.level)
                &&& c.event.tags@.len() == 0
                &&& c.alert == alert_due(self.alert, c.event.level)
                &&& c.event.platform@ == "rust"@
                &&& c.event.logger.is_none() && c.event.transaction.is_none()
                &&& c.event.server_name.is_none() && c.event.release.is_none()
                &&& c.event.environment.is_none()
                &&& c.event.extra@.len() == kept_fields(self.include_fields, visitor.fields@).len()
                    + (if self.include_metadata { 5nat } else { 0 })
                &&& forall|i: int|
                    0 <= i < kept_fields(self.include_fields, visitor.fields@).len() ==> c.event.extra@[i]
                        == kept_fields(self.include_fields, visitor.fields@)[i]
                &&& self.include_metadata ==> describes_call_site(
                    "meta_"@,
                    c.event.extra@.subrange(
                        kept_fields(self.include_fields, visitor.fields@).len() as int,
                        c.event.extra@.len() as int,
                    ),
                    *metadata,
                )
            },
    {
        if !self.should_process_event(&metadata.level) {
            return None;
        }
        let message = visitor.extract_message();
        let level = convert_tracing_level(&metadata.level);
        let fields = if self.include_fields {
            fields_without_message(visitor.fields)
        } else {
            Vec::new()
        };
        let meta = if self.include_metadata {
            extract_event_metadata(metadata)
        } else {
            Vec::new()
        };
        let ghost meta_seq = meta@;
        let ghost fields_len = fields@.len() as int;
        let event = create_sentrystr_event(message, level, fields, meta, event_id, timestamp);
        proof {
            if self.include_metadata {
                let tail = event.extra@.subrange(fields_len, event.extra@.len() as int);
                assert forall|k: int| 0 <= k < 5 implies tail[k].0@ == meta_key(meta_seq[k].0@) && tail[k].1
                    == meta_seq[k].1 by {
                    assert(tail[k] == event.extra@[fields_len + k]);
                }
                assert(meta_seq[0].0@ == Seq::<char>::empty() + "target"@);
                assert(meta_key(Seq::<char>::empty() + "target"@) =~= "meta_"@ + "target"@);
                assert(meta_key(Seq::<char>::empty() + "module_path"@) =~= "meta_"@ + "module_path"@);
                assert(meta_key(Seq::<char>::empty() + "file"@) =~= "meta_"@ + "file"@);
                assert(meta_key(Seq::<char>::empty() + "line"@) =~= "meta_"@ + "line"@);
                assert(meta_key(Seq::<char>::empty() + "level"@) =~= "meta_"@ + "level"@);
            }
        }
        let alert = alert_wanted(&self.alert, level);
        Some(CapturedRecord { event, alert })
    }
}

} // verus!
