use vstd::prelude::*;

use crate::event::{Event, Timestamp};
use crate::filter::EventFilter;
use crate::alert::{alert_due, alert_wanted, AlertConfig};

verus! {

/// The transport kind reserved for application events.
pub const EVENT_KIND: u16 = 9898;

/// How many collected events a live subscription holds for its consumer
/// before forwarding waits.
pub const SUBSCRIPTION_CAPACITY: usize = 1000;

/// How long a one-shot fetch may take, in seconds.
pub const FETCH_TIMEOUT_SECS: u64 = 10;

/// How many raw messages a query by author asks for when the caller names no limit.
pub const DEFAULT_AUTHOR_LIMIT: usize = 100;

/// One message as the transport delivered it.
#[derive(Debug)]
pub struct RawMessage {
    /// Transport message identifier (hex).
    pub event_id: String,
    /// Publishing identity (hex public key).
    pub author: String,
    /// The payload decoded as an event; `None` when it does not decode.
    pub payload: Option<Event>,
    /// Transport-level tags, each a list whose first element is the key.
    pub tags: Vec<Vec<String>>,
}

/// An event together with where it came from and when it was received.
#[derive(Debug)]
pub struct CollectedEvent {
    pub event: Event,
    pub author: String,
    pub nostr_event_id: String,
    pub received_at: Timestamp,
}

/// The message decoded and satisfies `filter`, transport tags included.
pub open spec fn passes(filter: EventFilter, m: RawMessage) -> bool {
    m.payload.is_some() && filter.admits_transport(m.payload.unwrap(), m.author@, m.tags@)
}

/// The collected event that a decoded message becomes when received at `t`.
pub open spec fn collected(m: RawMessage, t: Timestamp) -> CollectedEvent {
    CollectedEvent { event: m.payload.unwrap(), author: m.author, nostr_event_id: m.event_id, received_at: t }
}

/// The messages that decode, in order.
pub open spec fn decoded(msgs: Seq<RawMessage>) -> Seq<RawMessage>
    decreases msgs.len(),
{
    if msgs.len() == 0 {
        Seq::empty()
    } else if msgs.last().payload.is_some() {
        decoded(msgs.drop_last()).push(msgs.last())
    } else {
        decoded(msgs.drop_last())
    }
}

/// How many messages fail to decode.
pub open spec fn malformed_count(msgs: Seq<RawMessage>) -> nat
    decreases msgs.len(),
{
    if msgs.len() == 0 {
        0
    } else if msgs.last().payload.is_some() {
        malformed_count(msgs.drop_last())
    } else {
        malformed_count(msgs.drop_last()) + 1
    }
}

/// What collection returns: each message that decodes and passes the
/// filter, in arrival order, stamped with the receipt time.
pub open spec fn collect_spec(filter: EventFilter, msgs: Seq<RawMessage>, t: Timestamp) -> Seq<CollectedEvent>
    decreases msgs.len(),
{
    if msgs.len() == 0 {
        Seq::empty()
    } else if passes(filter, msgs.last()) {
        collect_spec(filter, msgs.drop_last(), t).push(collected(msgs.last(), t))
    } else {
        collect_spec(filter, msgs.drop_last(), t)
    }
}

/// Keeps, in arrival order, every message whose payload decoded and that
/// passes `filter` (transport tags included), stamped with `received_at`.
/// Messages that did not decode are skipped and do not fail the batch.
pub fn collect_matching(filter: &EventFilter, msgs: Vec<RawMessage>, received_at: Timestamp) -> (r: Vec<CollectedEvent>)
    ensures
        r@ == collect_spec(*filter, msgs@, received_at),
{
    let ghost all = msgs@;
    let mut out: Vec<CollectedEvent> = Vec::new();
    let mut rest = msgs;
    let mut pending: Vec<RawMessage> = Vec::new();
    // Reverse once so that popping yields the messages in arrival order.
    while rest.len() > 0
        invariant
            all == rest@ + pending@.reverse(),
        decreases rest.len(),
    {
        let m = rest.pop().unwrap();
        proof {
            assert(rest@ + pending@.push(m).reverse() =~= all);
        }
        pending.push(m);
    }
    while pending.len() > 0
        invariant
            all == all.subrange(0, all.len() - pending@.len()) + pending@.reverse(),
            pending@.len() <= all.len(),
            out@ == collect_spec(*filter, all.subrange(0, all.len() - pending@.len()), received_at),
        decreases pending.len(),
    {
        let ghost done = all.subrange(0, all.len() - pending@.len());
        let m = pending.pop().unwrap();
        let ghost next = all.subrange(0, all.len() - pending@.len());
        proof {
            assert(pending@.push(m).reverse() =~= seq![m] + pending@.reverse());
            assert(all[done.len() as int] == m) by {
                assert((done + pending@.push(m).reverse())[done.len() as int] == m);
            }
            assert(next.drop_last() =~= done);
            assert(next.last() == m);
            assert(all =~= next + pending@.reverse());
        }
        if m.payload.is_some() {
            let RawMessage { event_id, author, payload, tags } = m;
            let event = payload.unwrap();
            if filter.matches_nostr_event(&event, &author, &tags) {
                out.push(CollectedEvent { event, author, nostr_event_id: event_id, received_at });
            }
        }
    }
    proof {
        assert(all.subrange(0, all.len() as int) =~= all);
    }
    out
}

/// For each collected event, in order, whether it is to be alerted under
/// `config`: at least as severe as the minimum, never without a configuration.
pub fn alert_flags(config: &Option<AlertConfig>, events: &Vec<CollectedEvent>) -> (r: Vec<bool>)
    ensures
        r@.len() == events@.len(),
        forall|i: int| 0 <= i < events@.len() ==> r@[i] == alert_due(*config, #[trigger] events@[i].event.level),
{
    let mut r: Vec<bool> = Vec::new();
    let mut i: usize = 0;
    while i < events.len()
        invariant
            i <= events.len(),
            r@.len() == i,
            forall|k: int| 0 <= k < i ==> r@[k] == alert_due(*config, #[trigger] events@[k].event.level),
        decreases events.len() - i,
    {
        r.push(alert_wanted(config, events[i].event.level));
        i = i + 1;
    }
    r
}

/// A query handed to the transport: the event kind and the constraints that
/// the transport can apply itself. Times are whole seconds since the epoch.
#[derive(Clone, Debug)]
pub struct TransportQuery {
    pub kind: u16,
    pub authors: Option<Vec<String>>,
    pub since: Option<u64>,
    pub until: Option<u64>,
    pub limit: Option<usize>,
}

/// Whole seconds of `t`, a time before the epoch counting as the epoch.
pub open spec fn query_secs(t: Timestamp) -> u64 {
    if t.secs < 0 {
        0
    } else {
        t.secs as u64
    }
}

/// An optional time bound as handed to the transport.
pub open spec fn query_bound(t: Option<Timestamp>) -> Option<u64> {
    match t {
        None => None,
        Some(t) => Some(query_secs(t)),
    }
}

fn to_query_secs(t: Timestamp) -> (r: u64)
    ensures
        r == query_secs(t),
{
    if t.secs < 0 {
        0
    } else {
        t.secs as u64
    }
}

fn copy_strings(v: &Vec<String>) -> (r: Vec<String>)
    ensures
        r@ == v@,
{
    let mut r: Vec<String> = Vec::new();
    let mut i: usize = 0;
    while i < v.len()
        invariant
            i <= v.len(),
            r@ == v@.subrange(0, i as int),
        decreases v.len() - i,
    {
        r.push(v[i].clone());
        proof {
            assert(r@ =~= v@.subrange(0, i + 1));
        }
        i = i + 1;
    }
    proof {
        assert(v@.subrange(0, v.len() as int) =~= v@);
    }
    r
}

fn copy_authors(a: &Option<Vec<String>>) -> (r: Option<Vec<String>>)
    ensures
        r.is_some() == a.is_some(),
        r.is_some() ==> r.unwrap()@ == a.unwrap()@,
{
    match a {
        None => None,
        Some(v) => Some(copy_strings(v)),
    }
}

impl TransportQuery {
    /// The one-shot fetch query for `filter`: the event kind, the author
    /// allow-list, both time bounds and the result limit. Levels and tags
    /// are checked locally.
    pub fn for_collection(filter: &EventFilter) -> (r: TransportQuery)
        ensures
            r.kind == EVENT_KIND,
            r.authors.is_some() == filter.authors.is_some(),
            r.authors.is_some() ==> r.authors.unwrap()@ == filter.authors.unwrap()@,
            r.since == query_bound(filter.since),
            r.until == query_bound(filter.until),
            r.limit == filter.limit,
    {
        let since = match filter.since {
            None => None,
            Some(t) => Some(to_query_secs(t)),
        };
        let until = match filter.until {
            None => None,
            Some(t) => Some(to_query_secs(t)),
        };
        TransportQuery { kind: EVENT_KIND, authors: copy_authors(&filter.authors), since, until, limit: filter.limit }
    }

    /// The live subscription query for `filter`: the event kind, the author
    /// allow-list and the lower time bound; everything else is checked locally.
    pub fn for_subscription(filter: &EventFilter) -> (r: TransportQuery)
        ensures
            r.kind == EVENT_KIND,
            r.authors.is_some() == filter.authors.is_some(),
            r.authors.is_some() ==> r.authors.unwrap()@ == filter.authors.unwrap()@,
            r.since == query_bound(filter.since),
            r.until.is_none(),
            r.limit.is_none(),
    {
        let since = match filter.since {
            None => None,
            Some(t) => Some(to_query_secs(t)),
        };
        TransportQuery { kind: EVENT_KIND, authors: copy_authors(&filter.authors), since, until: None, limit: None }
    }
}

/// The filter of a query by author: that author alone, and `limit` raw
/// messages, or the default number when none is given.
pub fn author_filter(author: String, limit: Option<usize>) -> (r: EventFilter)
    ensures
        r.author_set() == Some(Set::<Seq<char>>::empty().insert(author@)),
        r.levels.is_none(),
        r.since.is_none(),
        r.until.is_none(),
        r.tags.is_none(),
        r.nostr_tags.is_none(),
        r.limit == Some(
            match limit {
                None => DEFAULT_AUTHOR_LIMIT,
                Some(l) => l,
            },
        ),
{
    let n = match limit {
        None => DEFAULT_AUTHOR_LIMIT,
        Some(l) => l,
    };
    EventFilter::new().with_author(author).with_limit(n)
}

/// A notification from the transport: a message and the subscription it
/// was delivered for.
#[derive(Debug)]
pub struct Notification {
    pub subscription_id: String,
    pub message: RawMessage,
}

/// What the forwarding loop of a live subscription learns from outside.
#[derive(Debug)]
pub enum StreamInput {
    /// The transport delivered a notification.
    Received(Notification),
    /// An alert was attempted; whether it went out.
    AlertDone(bool),
    /// A forwarded event was handed to the consumer (`true`) or the consumer
    /// had closed its end (`false`).
    Delivered(bool),
    /// The transport's notification stream ended.
    Closed,
}

/// What the forwarding loop is to do next.
#[derive(Debug)]
pub enum StreamAction {
    /// Nothing: wait for the next input.
    Idle,
    /// Hand `event` to the consumer, first alerting on it (best effort) when `alert` is set.
    Forward { event: CollectedEvent, alert: bool },
    /// End the loop.
    Stop,
}

/// The decision state of a live subscription's forwarding loop.
#[derive(Debug)]
pub struct Forwarder {
    pub filter: EventFilter,
    pub subscription_id: String,
    pub alert: Option<AlertConfig>,
    /// The loop runs until the consumer or the transport goes away.
    pub running: bool,
}

/// One step of the forwarding loop: the next state and the action, given
/// an input and the time at which it arrived.
pub open spec fn forward_step(s: Forwarder, input: StreamInput, t: Timestamp) -> (Forwarder, StreamAction) {
    if !s.running {
        (s, StreamAction::Stop)
    } else {
        match input {
            StreamInput::Received(n) => {
                if n.subscription_id@ == s.subscription_id@ && passes(s.filter, n.message) {
                    (
                        s,
                        StreamAction::Forward {
                            event: collected(n.message, t),
                            alert: alert_due(s.alert, n.message.payload.unwrap().level),
                        },
                    )
                } else {
                    (s, StreamAction::Idle)
                }
            },
            StreamInput::AlertDone(_) => (s, StreamAction::Idle),
            StreamInput::Delivered(true) => (s, StreamAction::Idle),
            StreamInput::Delivered(false) => (Forwarder { running: false, ..s }, StreamAction::Stop),
            StreamInput::Closed => (Forwarder { running: false, ..s }, StreamAction::Stop),
        }
    }
}

impl Forwarder {
    /// A running loop for the subscription `subscription_id`.
    pub fn new(filter: EventFilter, subscription_id: String, alert: Option<AlertConfig>) -> (r: Forwarder)
        ensures
            r == (Forwarder { filter, subscription_id, alert, running: true }),
    {
        Forwarder { filter, subscription_id, alert, running: true }
    }

    /// Takes one input and says what to do: forward a matching event of
    /// this subscription (with an alert flag), do nothing, or stop when the
    /// consumer has closed its end or the transport has closed.
    pub fn step(&mut self, input: StreamInput, received_at: Timestamp) -> (a: StreamAction)
        ensures
            (*final(self), a) == forward_step(*old(self), input, received_at),
    {
        if !self.running {
            return StreamAction::Stop;
        }
        match input {
            StreamInput::Received(n) => {
                let Notification { subscription_id, message } = n;
                if !(subscription_id == self.subscription_id) {
                    return StreamAction::Idle;
                }
                let RawMessage { event_id, author, payload, tags } = message;
                match payload {
                    None => StreamAction::Idle,
                    Some(event) => {
                        if self.filter.matches_nostr_event(&event, &author, &tags) {
                            let alert = alert_wanted(&self.alert, event.level);
                            StreamAction::Forward {
                                event: CollectedEvent { event, author, nostr_event_id: event_id, received_at },
                                alert,
                            }
                        } else {
                            StreamAction::Idle
                        }
                    },
                }
            },
            StreamInput::AlertDone(_) => StreamAction::Idle,
            StreamInput::Delivered(accepted) => {
                if accepted {
                    StreamAction::Idle
                } else {
                    self.running = false;
                    StreamAction::Stop
                }
            },
            StreamInput::Closed => {
                self.running = false;
                StreamAction::Stop
            },
        }
    }
}

/// Alert isolation: the outcome of an alert, sent or failed, changes
/// neither the state of the forwarding loop nor what it does next.
pub proof fn lemma_alert_outcome_ignored(s: Forwarder, sent: bool, failed: bool, t: Timestamp)
    ensures
        forward_step(s, StreamInput::AlertDone(sent), t) == forward_step(s, StreamInput::AlertDone(failed), t),
        forward_step(s, StreamInput::AlertDone(failed), t).0 == s,
{
}

/// A stopped loop stays stopped whatever comes in.
pub proof fn lemma_stopped_stays_stopped(s: Forwarder, input: StreamInput, t: Timestamp)
    requires
        !s.running,
    ensures
        forward_step(s, input, t) == (s, StreamAction::Stop),
{
}

/// A live subscription forwards exactly what collection from the same
/// filter keeps of a batch made of that one message.
pub proof fn lemma_forward_agrees_with_collection(s: Forwarder, n: Notification, t: Timestamp)
    requires
        s.running,
        n.subscription_id@ == s.subscription_id@,
    ensures
        collect_spec(s.filter, seq![n.message], t) == match forward_step(s, StreamInput::Received(n), t).1 {
            StreamAction::Forward { event, .. } => seq![event],
            _ => Seq::empty(),
        },
{
    let one = seq![n.message];
    assert(one.drop_last() =~= Seq::<RawMessage>::empty());
    assert(one.last() == n.message);
    assert(collect_spec(s.filter, Seq::<RawMessage>::empty(), t) == Seq::<CollectedEvent>::empty());
    if passes(s.filter, n.message) {
        assert(Seq::<CollectedEvent>::empty().push(collected(n.message, t)) =~= seq![collected(n.message, t)]);
    }
}

/// Every message either decodes or is malformed: of `N` messages of which
/// `M` are malformed, exactly `N - M` are decoded candidates.
pub proof fn lemma_decode_partition(msgs: Seq<RawMessage>)
    ensures
        decoded(msgs).len() + malformed_count(msgs) == msgs.len(),
    decreases msgs.len(),
{
    if msgs.len() > 0 {
        lemma_decode_partition(msgs.drop_last());
    }
}

/// Malformed messages contribute nothing: collecting a batch gives what
/// collecting its decoded candidates alone gives.
pub proof fn lemma_malformed_ignored(filter: EventFilter, msgs: Seq<RawMessage>, t: Timestamp)
    ensures
        collect_spec(filter, msgs, t) == collect_spec(filter, decoded(msgs), t),
    decreases msgs.len(),
{
    if msgs.len() > 0 {
        lemma_malformed_ignored(filter, msgs.drop_last(), t);
        if msgs.last().payload.is_some() {
            let d = decoded(msgs.drop_last()).push(msgs.last());
            assert(d.drop_last() =~= decoded(msgs.drop_last()));
        }
    }
}

/// Each message is tested on its own: collecting two batches one after the
/// other gives the two results one after the other.
pub proof fn lemma_collect_concat(filter: EventFilter, a: Seq<RawMessage>, b: Seq<RawMessage>, t: Timestamp)
    ensures
        collect_spec(filter, a + b, t) == collect_spec(filter, a, t) + collect_spec(filter, b, t),
    decreases b.len(),
{
    if b.len() == 0 {
        assert(a + b =~= a);
        assert(collect_spec(filter, a, t) + collect_spec(filter, b, t) =~= collect_spec(filter, a, t));
    } else {
        assert((a + b).drop_last() =~= a + b.drop_last());
        assert((a + b).last() == b.last());
        lemma_collect_concat(filter, a, b.drop_last(), t);
        if passes(filter, b.last()) {
            assert(collect_spec(filter, a, t) + collect_spec(filter, b.drop_last(), t).push(collected(b.last(), t))
                =~= (collect_spec(filter, a, t) + collect_spec(filter, b.drop_last(), t)).push(collected(b.last(), t)));
        }
    }
}

} // verus!
