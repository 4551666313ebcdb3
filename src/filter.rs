use vstd::prelude::*;

use crate::entries::find_entry;
use crate::event::{Event, Timestamp};
use crate::level::Level;

verus! {

/// Whether transport metadata holds a tag whose first element is `key` and
/// whose second is `value`.
pub open spec fn transport_has(tags: Seq<Vec<String>>, key: Seq<char>, value: Seq<char>) -> bool {
    exists|j: int|
        0 <= j < tags.len() && tags[j]@.len() >= 2 && (#[trigger] tags[j])@[0]@ == key
            && tags[j]@[1]@ == value
}

/// Whether a list of `(key, value)` requirements holds `(key, value)`.
pub open spec fn requires_pair(reqs: Seq<(String, String)>, key: Seq<char>, value: Seq<char>) -> bool {
    exists|j: int| 0 <= j < reqs.len() && (#[trigger] reqs[j]).0@ == key && reqs[j].1@ == value
}

/// Every requirement of `wider` is also a requirement of `narrower`.
pub open spec fn pairs_cover(narrower: Option<Vec<(String, String)>>, wider: Option<Vec<(String, String)>>) -> bool {
    match wider {
        None => true,
        Some(w) => match narrower {
            None => w@.len() == 0,
            Some(n) => forall|i: int|
                0 <= i < w@.len() ==> requires_pair(n@, (#[trigger] w@[i]).0@, w@[i].1@),
        },
    }
}

/// The requirement list held by an optional list (empty when there is none).
pub open spec fn pair_seq(p: Option<Vec<(String, String)>>) -> Seq<(String, String)> {
    match p {
        None => Seq::empty(),
        Some(v) => v@,
    }
}

/// `after` is `before` with `(key, value)` appended.
pub open spec fn appended(
    before: Option<Vec<(String, String)>>,
    after: Option<Vec<(String, String)>>,
    key: Seq<char>,
    value: Seq<char>,
) -> bool {
    &&& after.is_some()
    &&& pair_seq(after).len() == pair_seq(before).len() + 1
    &&& pair_seq(after).drop_last() == pair_seq(before)
    &&& pair_seq(after).last().0@ == key
    &&& pair_seq(after).last().1@ == value
}

/// The `(key, value)` texts of a requirement list.
pub open spec fn pair_views(s: Seq<(String, String)>) -> Seq<(Seq<char>, Seq<char>)> {
    s.map_values(|p: (String, String)| (p.0@, p.1@))
}

/// One `(key, value)` requirement when a value is given, none otherwise.
pub open spec fn opt_pair(key: Seq<char>, value: Option<String>) -> Seq<(Seq<char>, Seq<char>)> {
    match value {
        None => Seq::empty(),
        Some(v) => seq![(key, v@)],
    }
}

/// The transport tag requirements of the service, environment, component
/// and severity options, in that order.
pub open spec fn service_pairs(
    service: Option<String>,
    environment: Option<String>,
    component: Option<String>,
    severity: Option<String>,
) -> Seq<(Seq<char>, Seq<char>)> {
    opt_pair("service"@, service) + opt_pair("env"@, environment) + opt_pair("component"@, component)
        + opt_pair("severity"@, severity)
}

/// Appending shows in the texts of the list.
pub proof fn lemma_appended_views(
    before: Option<Vec<(String, String)>>,
    after: Option<Vec<(String, String)>>,
    key: Seq<char>,
    value: Seq<char>,
)
    requires
        appended(before, after, key, value),
    ensures
        pair_views(pair_seq(after)) == pair_views(pair_seq(before)).push((key, value)),
{
    let a = pair_seq(after);
    let b = pair_seq(before);
    assert forall|i: int| 0 <= i < b.len() implies a[i] == b[i] by {
        assert(a.drop_last()[i] == a[i]);
    }
    assert(pair_views(a) =~= pair_views(b).push((key, value)));
}

/// Appending a requirement keeps every earlier one.
proof fn lemma_appended_covers(
    before: Option<Vec<(String, String)>>,
    after: Option<Vec<(String, String)>>,
    key: Seq<char>,
    value: Seq<char>,
)
    requires
        appended(before, after, key, value),
    ensures
        pairs_cover(after, before),
{
    if let Some(b) = before {
        let a = pair_seq(after);
        assert forall|i: int| 0 <= i < b@.len() implies requires_pair(a, (#[trigger] b@[i]).0@, b@[i].1@) by {
            assert(a.drop_last()[i] == a[i]);
        }
    }
}

/// Pushes `(key, value)` onto an optional requirement list.
fn push_pair(list: Option<Vec<(String, String)>>, key: String, value: String) -> (r: Option<Vec<(String, String)>>)
    ensures
        appended(list, r, key@, value@),
{
    match list {
        Some(mut v) => {
            v.push((key, value));
            proof {
                assert(v@.drop_last() =~= pair_seq(list));
            }
            Some(v)
        },
        None => {
            let v = vec![(key, value)];
            proof {
                assert(v@.drop_last() =~= pair_seq(list));
            }
            Some(v)
        },
    }
}

/// A set of optional constraints on events. A constraint that is `None`
/// places no restriction on its dimension.
#[derive(Clone, Debug)]
pub struct EventFilter {
    /// Allow-list of publishing identities (hex public keys).
    pub authors: Option<Vec<String>>,
    /// Allow-list of severity levels.
    pub levels: Option<Vec<Level>>,
    /// Earliest admitted creation time, inclusive.
    pub since: Option<Timestamp>,
    /// Latest admitted creation time, inclusive.
    pub until: Option<Timestamp>,
    /// Required `(key, value)` pairs among the event's own tags.
    pub tags: Option<Vec<(String, String)>>,
    /// Required `(key, value)` pairs among the transport metadata.
    pub nostr_tags: Option<Vec<(String, String)>>,
    /// How many raw messages to ask the transport for.
    pub limit: Option<usize>,
}

impl EventFilter {
    /// The author allow-list as a set.
    pub open spec fn author_set(self) -> Option<Set<Seq<char>>> {
        match self.authors {
            None => None,
            Some(v) => Some(Set::new(|a: Seq<char>| exists|i: int| 0 <= i < v@.len() && (#[trigger] v@[i])@ == a)),
        }
    }

    /// The level allow-list as a set.
    pub open spec fn level_set(self) -> Option<Set<Level>> {
        match self.levels {
            None => None,
            Some(v) => Some(v@.to_set()),
        }
    }

    pub open spec fn allows_author(self, author: Seq<char>) -> bool {
        match self.author_set() {
            None => true,
            Some(s) => s.contains(author),
        }
    }

    pub open spec fn allows_level(self, level: Level) -> bool {
        match self.level_set() {
            None => true,
            Some(s) => s.contains(level),
        }
    }

    pub open spec fn allows_time(self, t: Timestamp) -> bool {
        &&& (match self.since {
            None => true,
            Some(s) => !t.before(s),
        })
        &&& (match self.until {
            None => true,
            Some(u) => !u.before(t),
        })
    }

    /// Every required tag is present on the event with exactly the required value.
    pub open spec fn has_tags(self, e: Event) -> bool {
        match self.tags {
            None => true,
            Some(req) => forall|i: int|
                0 <= i < req@.len() ==> e.tag_map().contains_key((#[trigger] req@[i]).0@)
                    && e.tag_map()[req@[i].0@]@ == req@[i].1@,
        }
    }

    /// Every required transport tag is present in the transport metadata.
    pub open spec fn has_transport_tags(self, transport: Seq<Vec<String>>) -> bool {
        match self.nostr_tags {
            None => true,
            Some(req) => forall|i: int|
                0 <= i < req@.len() ==> transport_has(transport, (#[trigger] req@[i]).0@, req@[i].1@),
        }
    }

    /// The event, published by `author`, satisfies every configured constraint.
    pub open spec fn admits(self, e: Event, author: Seq<char>) -> bool {
        &&& self.allows_author(author)
        &&& self.allows_level(e.level)
        &&& self.allows_time(e.timestamp)
        &&& self.has_tags(e)
    }

    /// `admits`, and the transport metadata carries every required transport tag.
    pub open spec fn admits_transport(self, e: Event, author: Seq<char>, transport: Seq<Vec<String>>) -> bool {
        self.admits(e, author) && self.has_transport_tags(transport)
    }

    /// `self` constrains every dimension at least as tightly as `wider` does.
    pub open spec fn narrows(self, wider: EventFilter) -> bool {
        &&& (match wider.author_set() {
            None => true,
            Some(w) => match self.author_set() {
                None => false,
                Some(n) => n.subset_of(w),
            },
        })
        &&& (match wider.level_set() {
            None => true,
            Some(w) => match self.level_set() {
                None => false,
                Some(n) => n.subset_of(w),
            },
        })
        &&& (match wider.since {
            None => true,
            Some(w) => match self.since {
                None => false,
                Some(n) => !n.before(w),
            },
        })
        &&& (match wider.until {
            None => true,
            Some(w) => match self.until {
                None => false,
                Some(n) => !w.before(n),
            },
        })
        &&& pairs_cover(self.tags, wider.tags)
        &&& pairs_cover(self.nostr_tags, wider.nostr_tags)
    }

    /// The filter with no constraints.
    pub fn new() -> (r: EventFilter)
        ensures
            r.authors.is_none(),
            r.levels.is_none(),
            r.since.is_none(),
            r.until.is_none(),
            r.tags.is_none(),
            r.nostr_tags.is_none(),
            r.limit.is_none(),
    {
        EventFilter {
            authors: None,
            levels: None,
            since: None,
            until: None,
            tags: None,
            nostr_tags: None,
            limit: None,
        }
    }

    /// Whether `event`, published by `author`, satisfies every configured
    /// constraint; stops at the first one that fails.
    pub fn matches(&self, event: &Event, author: &String) -> (r: bool)
        ensures
            r == self.admits(*event, author@),
    {
        if let Some(authors) = &self.authors {
            let mut found = false;
            let mut i: usize = 0;
            while i < authors.len()
                invariant
                    i <= authors.len(),
                    found == exists|j: int| 0 <= j < i && (#[trigger] authors@[j])@ == author@,
                decreases authors.len() - i,
            {
                if authors[i] == *author {
                    found = true;
                }
                i = i + 1;
            }
            if !found {
                return false;
            }
        }
        if let Some(levels) = &self.levels {
            let mut found = false;
            let mut i: usize = 0;
            while i < levels.len()
                invariant
                    i <= levels.len(),
                    found == exists|j: int| 0 <= j < i && levels@[j] == event.level,
                decreases levels.len() - i,
            {
                if levels[i] == event.level {
                    found = true;
                }
                i = i + 1;
            }
            if !found {
                proof {
                    assert(!levels@.contains(event.level));
                }
                return false;
            }
            proof {
                assert(levels@.contains(event.level));
            }
        }
        if let Some(since) = &self.since {
            if event.timestamp.is_before(since) {
                return false;
            }
        }
        if let Some(until) = &self.until {
            if until.is_before(&event.timestamp) {
                return false;
            }
        }
        if let Some(required) = &self.tags {
            let mut i: usize = 0;
            while i < required.len()
                invariant
                    i <= required.len(),
                    self.tags == Some(*required),
                    self.allows_author(author@),
                    self.allows_level(event.level),
                    self.allows_time(event.timestamp),
                    forall|j: int|
                        0 <= j < i ==> event.tag_map().contains_key((#[trigger] required@[j]).0@)
                            && event.tag_map()[required@[j].0@]@ == required@[j].1@,
                decreases required.len() - i,
            {
                match find_entry(&event.tags, &required[i].0) {
                    Some(value) => {
                        if !(*value == required[i].1) {
                            proof {
                                assert(!(event.tag_map()[required@[i as int].0@]@ == required@[i as int].1@));
                                assert(self.tags.unwrap()@[i as int] == required@[i as int]);
                            }
                            return false;
                        }
                    },
                    None => {
                        proof {
                            assert(!event.tag_map().contains_key(required@[i as int].0@));
                            assert(self.tags.unwrap()@[i as int] == required@[i as int]);
                        }
                        return false;
                    },
                }
                i = i + 1;
            }
        }
        true
    }

    /// `matches`, and then every required transport tag is looked for in
    /// `transport`, the raw message's tags (each a list whose first element
    /// is the key and whose second is the value); stops at the first miss.
    pub fn matches_nostr_event(&self, event: &Event, author: &String, transport: &Vec<Vec<String>>) -> (r: bool)
        ensures
            r == self.admits_transport(*event, author@, transport@),
    {
        if !self.matches(event, author) {
            return false;
        }
        if let Some(required) = &self.nostr_tags {
            let mut i: usize = 0;
            while i < required.len()
                invariant
                    i <= required.len(),
                    self.nostr_tags == Some(*required),
                    self.admits(*event, author@),
                    forall|j: int|
                        0 <= j < i ==> transport_has(transport@, (#[trigger] required@[j]).0@, required@[j].1@),
                decreases required.len() - i,
            {
                let key = &required[i].0;
                let value = &required[i].1;
                let mut found = false;
                let mut t: usize = 0;
                while t < transport.len()
                    invariant
                        t <= transport.len(),
                        found == exists|j: int|
                            0 <= j < t && transport@[j]@.len() >= 2 && (#[trigger] transport@[j])@[0]@ == key@
                                && transport@[j]@[1]@ == value@,
                    decreases transport.len() - t,
                {
                    let tag = &transport[t];
                    if tag.len() >= 2 && tag[0] == *key && tag[1] == *value {
                        found = true;
                    }
                    t = t + 1;
                }
                if !found {
                    proof {
                        assert(!transport_has(transport@, required@[i as int].0@, required@[i as int].1@));
                        assert(self.nostr_tags.unwrap()@[i as int] == required@[i as int]);
                    }
                    return false;
                }
                i = i + 1;
            }
        }
        true
    }

    /// The filter with `author` added to the author allow-list (created if absent).
    pub fn with_author(self, author: String) -> (r: EventFilter)
        ensures
            r.author_set() == Some(
                match self.author_set() {
                    None => Set::empty().insert(author@),
                    Some(s) => s.insert(author@),
                },
            ),
            r == (EventFilter { authors: r.authors, ..self }),
            self.authors.is_none() ==> r.narrows(self),
    {
        proof {
            lemma_pairs_cover_refl(self.tags);
            lemma_pairs_cover_refl(self.nostr_tags);
        }
        let mut f = self;
        match f.authors {
            Some(ref mut authors) => {
                let ghost old_authors = authors@;
                authors.push(author);
                proof {
                    assert(authors@[old_authors.len() as int] == author);
                    assert forall|a: Seq<char>|
                        self.author_set().unwrap().insert(author@).contains(a) implies f.author_set().unwrap().contains(a) by {
                        if a != author@ {
                            let i = choose|i: int| 0 <= i < old_authors.len() && (#[trigger] old_authors[i])@ == a;
                            assert(authors@[i] == old_authors[i]);
                        }
                    }
                    assert forall|a: Seq<char>|
                        f.author_set().unwrap().contains(a) implies self.author_set().unwrap().insert(author@).contains(a) by {
                        let i = choose|i: int| 0 <= i < authors@.len() && (#[trigger] authors@[i])@ == a;
                        if i < old_authors.len() {
                            assert(old_authors[i] == authors@[i]);
                        }
                    }
                    assert(f.author_set().unwrap() =~= self.author_set().unwrap().insert(author@));
                }
            },
            None => {
                let v = vec![author];
                proof {
                    assert(v@[0] == author);
                    assert(EventFilter { authors: Some(v), ..f }.author_set().unwrap() =~= Set::empty().insert(author@));
                }
                f.authors = Some(v);
            },
        }
        f
    }

    /// The filter with `level` added to the level allow-list (created if absent).
    pub fn with_level(self, level: Level) -> (r: EventFilter)
        ensures
            r.level_set() == Some(
                match self.level_set() {
                    None => Set::empty().insert(level),
                    Some(s) => s.insert(level),
                },
            ),
            r == (EventFilter { levels: r.levels, ..self }),
            self.levels.is_none() ==> r.narrows(self),
    {
        proof {
            lemma_pairs_cover_refl(self.tags);
            lemma_pairs_cover_refl(self.nostr_tags);
        }
        let mut f = self;
        match f.levels {
            Some(ref mut levels) => {
                let ghost old_levels = levels@;
                levels.push(level);
                proof {
                    assert(levels@ == old_levels.push(level));
                    old_levels.lemma_push_to_set_commute(level);
                }
            },
            None => {
                let v = vec![level];
                proof {
                    assert(v@ == Seq::<Level>::empty().push(level));
                    Seq::<Level>::empty().lemma_push_to_set_commute(level);
                    assert(Seq::<Level>::empty().to_set() =~= Set::empty());
                }
                f.levels = Some(v);
            },
        }
        f
    }

    /// The filter admitting nothing created before `since`.
    pub fn with_since(self, since: Timestamp) -> (r: EventFilter)
        ensures
            r == (EventFilter { since: Some(since), ..self }),
            (match self.since {
                None => true,
                Some(s) => !since.before(s),
            }) ==> r.narrows(self),
    {
        let r = EventFilter { since: Some(since), ..self };
        proof {
            if (match self.since {
                None => true,
                Some(s) => !since.before(s),
            }) {
                lemma_pairs_cover_refl(self.tags);
                lemma_pairs_cover_refl(self.nostr_tags);
                lemma_narrows_when_same_lists(r, self);
            }
        }
        r
    }

    /// The filter admitting nothing created after `until`.
    pub fn with_until(self, until: Timestamp) -> (r: EventFilter)
        ensures
            r == (EventFilter { until: Some(until), ..self }),
            (match self.until {
                None => true,
                Some(u) => !u.before(until),
            }) ==> r.narrows(self),
    {
        let r = EventFilter { until: Some(until), ..self };
        proof {
            if (match self.until {
                None => true,
                Some(u) => !u.before(until),
            }) {
                lemma_pairs_cover_refl(self.tags);
                lemma_pairs_cover_refl(self.nostr_tags);
                lemma_narrows_when_same_lists(r, self);
            }
        }
        r
    }

    /// The filter that also requires the event tag `key` to equal `value`.
    pub fn with_tag(self, key: String, value: String) -> (r: EventFilter)
        ensures
            appended(self.tags, r.tags, key@, value@),
            r == (EventFilter { tags: r.tags, ..self }),
            r.narrows(self),
    {
        let ghost old = self;
        let mut f = self;
        f.tags = push_pair(f.tags, key, value);
        proof {
            lemma_appended_covers(old.tags, f.tags, key@, value@);
            lemma_narrows_when_same_lists(f, EventFilter { tags: f.tags, ..old });
        }
        f
    }

    /// The filter asking the transport for at most `limit` raw messages.
    pub fn with_limit(self, limit: usize) -> (r: EventFilter)
        ensures
            r == (EventFilter { limit: Some(limit), ..self }),
    {
        EventFilter { limit: Some(limit), ..self }
    }

    /// The filter that also requires the transport tag `key` with `value`.
    pub fn with_nostr_tag(self, key: String, value: String) -> (r: EventFilter)
        ensures
            appended(self.nostr_tags, r.nostr_tags, key@, value@),
            r == (EventFilter { nostr_tags: r.nostr_tags, ..self }),
            r.narrows(self),
    {
        let ghost old = self;
        let mut f = self;
        f.nostr_tags = push_pair(f.nostr_tags, key, value);
        proof {
            lemma_appended_covers(old.nostr_tags, f.nostr_tags, key@, value@);
            lemma_narrows_when_same_lists(f, EventFilter { nostr_tags: f.nostr_tags, ..old });
        }
        f
    }

    /// Requires the transport tag `service`.
    pub fn with_service_filter(self, service: String) -> (r: EventFilter)
        ensures
            appended(self.nostr_tags, r.nostr_tags, "service"@, service@),
            r == (EventFilter { nostr_tags: r.nostr_tags, ..self }),
            r.narrows(self),
    {
        self.with_nostr_tag(String::from_str("service"), service)
    }

    /// Requires the transport tag `env`.
    pub fn with_environment_filter(self, environment: String) -> (r: EventFilter)
        ensures
            appended(self.nostr_tags, r.nostr_tags, "env"@, environment@),
            r == (EventFilter { nostr_tags: r.nostr_tags, ..self }),
            r.narrows(self),
    {
        self.with_nostr_tag(String::from_str("env"), environment)
    }

    /// Requires the transport tag `component`.
    pub fn with_component_filter(self, component: String) -> (r: EventFilter)
        ensures
            appended(self.nostr_tags, r.nostr_tags, "component"@, component@),
            r == (EventFilter { nostr_tags: r.nostr_tags, ..self }),
            r.narrows(self),
    {
        self.with_nostr_tag(String::from_str("component"), component)
    }

    /// Requires the transport tag `severity`.
    pub fn with_severity_filter(self, severity: String) -> (r: EventFilter)
        ensures
            appended(self.nostr_tags, r.nostr_tags, "severity"@, severity@),
            r == (EventFilter { nostr_tags: r.nostr_tags, ..self }),
            r.narrows(self),
    {
        self.with_nostr_tag(String::from_str("severity"), severity)
    }
}

/// Adds the transport tag requirements of the options that are given:
/// service, environment, component and severity, in that order.
pub(crate) fn apply_transport_filters(
    filter: EventFilter,
    service: Option<String>,
    environment: Option<String>,
    component: Option<String>,
    severity: Option<String>,
) -> (r: EventFilter)
    ensures
        pair_views(pair_seq(r.nostr_tags)) == pair_views(pair_seq(filter.nostr_tags)) + service_pairs(
            service,
            environment,
            component,
            severity,
        ),
        r.nostr_tags.is_some() == (filter.nostr_tags.is_some() || service.is_some() || environment.is_some()
            || component.is_some() || severity.is_some()),
        r == (EventFilter { nostr_tags: r.nostr_tags, ..filter }),
{
    let ghost v0 = pair_views(pair_seq(filter.nostr_tags));
    let ghost (sv, en, co, se) = (service, environment, component, severity);
    let f1 = match service {
        Some(s) => filter.with_service_filter(s),
        None => filter,
    };
    proof {
        if let Some(s) = sv {
            lemma_appended_views(filter.nostr_tags, f1.nostr_tags, "service"@, s@);
        }
        assert(pair_views(pair_seq(f1.nostr_tags)) =~= v0 + opt_pair("service"@, sv));
    }
    let f2 = match environment {
        Some(s) => f1.with_environment_filter(s),
        None => f1,
    };
    proof {
        if let Some(s) = en {
            lemma_appended_views(f1.nostr_tags, f2.nostr_tags, "env"@, s@);
        }
        assert(pair_views(pair_seq(f2.nostr_tags)) =~= v0 + opt_pair("service"@, sv) + opt_pair("env"@, en));
    }
    let f3 = match component {
        Some(s) => f2.with_component_filter(s),
        None => f2,
    };
    proof {
        if let Some(s) = co {
            lemma_appended_views(f2.nostr_tags, f3.nostr_tags, "component"@, s@);
        }
        assert(pair_views(pair_seq(f3.nostr_tags)) =~= v0 + opt_pair("service"@, sv) + opt_pair("env"@, en)
            + opt_pair("component"@, co));
    }
    let f4 = match severity {
        Some(s) => f3.with_severity_filter(s),
        None => f3,
    };
    proof {
        if let Some(s) = se {
            lemma_appended_views(f3.nostr_tags, f4.nostr_tags, "severity"@, s@);
        }
        assert(pair_views(pair_seq(f4.nostr_tags)) =~= v0 + service_pairs(sv, en, co, se));
    }
    f4
}

/// Monotonic narrowing: when `narrow` constrains every dimension at least as
/// tightly as `wide`, every event (with its author and transport metadata)
/// that `narrow` admits is admitted by `wide` too, so the set matched under
/// `narrow` is a subset of the set matched under `wide`.
pub proof fn lemma_narrowing_shrinks_matches(
    narrow: EventFilter,
    wide: EventFilter,
    e: Event,
    author: Seq<char>,
    transport: Seq<Vec<String>>,
)
    requires
        narrow.narrows(wide),
        narrow.admits_transport(e, author, transport),
    ensures
        wide.admits_transport(e, author, transport),
{
    if let Some(w) = wide.tags {
        let n = narrow.tags.unwrap();
        assert forall|i: int| 0 <= i < w@.len() implies e.tag_map().contains_key((#[trigger] w@[i]).0@)
            && e.tag_map()[w@[i].0@]@ == w@[i].1@ by {
            let j = choose|j: int| 0 <= j < n@.len() && (#[trigger] n@[j]).0@ == w@[i].0@ && n@[j].1@ == w@[i].1@;
            assert(e.tag_map().contains_key(n@[j].0@));
        }
    }
    if let Some(w) = wide.nostr_tags {
        let n = narrow.nostr_tags.unwrap();
        assert forall|i: int| 0 <= i < w@.len() implies transport_has(transport, (#[trigger] w@[i]).0@, w@[i].1@) by {
            let j = choose|j: int| 0 <= j < n@.len() && (#[trigger] n@[j]).0@ == w@[i].0@ && n@[j].1@ == w@[i].1@;
            assert(transport_has(transport, n@[j].0@, n@[j].1@));
        }
    }
}

/// Tag requirements are a conjunction: an event that lacks the key of any one
/// requirement is rejected, whatever its other tags hold.
pub proof fn lemma_missing_tag_rejects(f: EventFilter, e: Event, author: Seq<char>, i: int)
    requires
        f.tags.is_some(),
        0 <= i < f.tags.unwrap()@.len(),
        !e.tag_map().contains_key(f.tags.unwrap()@[i].0@),
    ensures
        !f.admits(e, author),
{
    assert(f.tags.unwrap()@[i] == f.tags.unwrap()@[i]);
}

/// Likewise, a tag present with a value other than the required one rejects.
pub proof fn lemma_mismatched_tag_rejects(f: EventFilter, e: Event, author: Seq<char>, i: int)
    requires
        f.tags.is_some(),
        0 <= i < f.tags.unwrap()@.len(),
        e.tag_map().contains_key(f.tags.unwrap()@[i].0@),
        e.tag_map()[f.tags.unwrap()@[i].0@]@ != f.tags.unwrap()@[i].1@,
    ensures
        !f.admits(e, author),
{
    assert(f.tags.unwrap()@[i] == f.tags.unwrap()@[i]);
}

/// Level gating: with a level allow-list, an event is admitted only if its
/// level is on the list.
pub proof fn lemma_level_gate(f: EventFilter, e: Event, author: Seq<char>)
    requires
        f.levels.is_some(),
        f.admits(e, author),
    ensures
        f.levels.unwrap()@.contains(e.level),
{
}

/// Two filters whose allow-lists are the same, whose tag requirements of
/// `n` cover those of `w`, and whose time bounds of `n` lie within those of
/// `w`: `n` narrows `w`.
proof fn lemma_narrows_when_same_lists(n: EventFilter, w: EventFilter)
    requires
        n.authors == w.authors,
        n.levels == w.levels,
        pairs_cover(n.tags, w.tags),
        pairs_cover(n.nostr_tags, w.nostr_tags),
        w.since.is_some() ==> n.since.is_some() && !n.since.unwrap().before(w.since.unwrap()),
        w.until.is_some() ==> n.until.is_some() && !w.until.unwrap().before(n.until.unwrap()),
    ensures
        n.narrows(w),
{
}

/// A requirement list covers itself.
proof fn lemma_pairs_cover_refl(p: Option<Vec<(String, String)>>)
    ensures
        pairs_cover(p, p),
{
    if let Some(v) = p {
        assert forall|i: int| 0 <= i < v@.len() implies requires_pair(v@, (#[trigger] v@[i]).0@, v@[i].1@) by {}
    }
}

} // verus!
