use vstd::prelude::*;

use crate::alert::PrivateMessageConfig;
use crate::error::CollectorError;
use crate::filter::{apply_transport_filters, pair_views, pair_seq, service_pairs, EventFilter};
use crate::level::Level;
use crate::parse::{level_named, lowercase_of, parse_level, parse_public_key, parsed_public_key};

verus! {

/// The given public key text, if any, denotes a key.
pub open spec fn key_given_ok(text: Option<String>) -> bool {
    match text {
        None => true,
        Some(t) => parsed_public_key(t@) is Some,
    }
}

/// The given level name, if any, names a level.
pub open spec fn level_given_ok(text: Option<String>) -> bool {
    match text {
        None => true,
        Some(t) => level_named(lowercase_of(t@)) is Some,
    }
}

/// The key that a valid key text denotes.
pub open spec fn key_of(text: String) -> Seq<char> {
    parsed_public_key(text@).unwrap()
}

/// The level that a valid level name names.
pub open spec fn level_of(text: String) -> Level {
    level_named(lowercase_of(text@)).unwrap()
}

/// Parses a public key for a filter or a recipient; a bad one is a
/// collection error whose description starts with `prefix`.
fn key_or_error(text: &str, prefix: &str) -> (r: Result<String, CollectorError>)
    ensures
        r is Ok <==> parsed_public_key(text@) is Some,
        r is Ok ==> parsed_public_key(text@) == Some(r->Ok_0@),
        r is Err ==> r->Err_0 is Collection && prefix@.is_prefix_of(r->Err_0->Collection_0@),
{
    match parse_public_key(text) {
        Ok(hex) => Ok(hex),
        Err(e) => {
            let message = String::from_str(prefix).concat(e.as_str());
            proof {
                assert(message@.subrange(0, prefix@.len() as int) =~= prefix@);
            }
            Err(CollectorError::Collection(message))
        },
    }
}

/// Filter settings as a command line gives them: an optional result limit,
/// author key and level name, the service, environment, component and
/// severity transport tags, and further `(key, value)` transport tags.
#[derive(Clone, Debug)]
pub struct FilterOptions {
    pub limit: Option<usize>,
    pub author: Option<String>,
    pub level: Option<String>,
    pub service: Option<String>,
    pub environment: Option<String>,
    pub component: Option<String>,
    pub severity: Option<String>,
    pub tags: Vec<(String, String)>,
}

impl FilterOptions {
    /// The filter these settings describe. A bad author key is a
    /// collection error starting `Invalid public key: `; a bad level name
    /// (checked after the key) is the collection error `Invalid level`.
    pub fn to_filter(self) -> (r: Result<EventFilter, CollectorError>)
        ensures
            r is Ok <==> key_given_ok(self.author) && level_given_ok(self.level),
            !key_given_ok(self.author) ==> r is Err && r->Err_0 is Collection
                && "Invalid public key: "@.is_prefix_of(r->Err_0->Collection_0@),
            key_given_ok(self.author) && !level_given_ok(self.level) ==> r is Err && r->Err_0 is Collection
                && r->Err_0->Collection_0@ == "Invalid level"@,
            r is Ok ==> {
                let f = r->Ok_0;
                let transport = service_pairs(self.service, self.environment, self.component, self.severity)
                    + pair_views(self.tags@);
                &&& f.limit == self.limit
                &&& f.author_set() == match self.author {
                    None => None,
                    Some(a) => Some(Set::<Seq<char>>::empty().insert(key_of(a))),
                }
                &&& f.level_set() == match self.level {
                    None => None,
                    Some(l) => Some(Set::<Level>::empty().insert(level_of(l))),
                }
                &&& f.since.is_none() && f.until.is_none() && f.tags.is_none()
                &&& pair_views(pair_seq(f.nostr_tags)) == transport
                &&& f.nostr_tags.is_some() == (transport.len() > 0)
            },
    {
        let FilterOptions { limit, author, level, service, environment, component, severity, tags } = self;
        let mut filter = EventFilter::new();
        if let Some(n) = limit {
            filter = filter.with_limit(n);
        }
        if let Some(text) = author {
            let key = key_or_error(text.as_str(), "Invalid public key: ")?;
            filter = filter.with_author(key);
        }
        if let Some(text) = level {
            match parse_level(text.as_str()) {
                Ok(l) => {
                    filter = filter.with_level(l);
                },
                Err(e) => {
                    return Err(CollectorError::Collection(e));
                },
            }
        }
        let ghost named = service_pairs(service, environment, component, severity);
        filter = apply_transport_filters(filter, service, environment, component, severity);
        let ghost all_tags = tags@;
        let mut rest = tags;
        let mut j: usize = 0;
        assert(all_tags.len() == rest.len());
        while rest.len() > 0
            invariant
                j + rest@.len() == all_tags.len(),
                all_tags.len() <= usize::MAX,
                rest@ == all_tags.subrange(j as int, all_tags.len() as int),
                pair_views(pair_seq(filter.nostr_tags)) == named + pair_views(all_tags.subrange(0, j as int)),
                filter.nostr_tags.is_some() == (named.len() + j > 0),
                filter.limit == limit,
                filter.since.is_none() && filter.until.is_none() && filter.tags.is_none(),
                filter.author_set() == match author {
                    None => None,
                    Some(a) => Some(Set::<Seq<char>>::empty().insert(key_of(a))),
                },
                filter.level_set() == match level {
                    None => None,
                    Some(l) => Some(Set::<Level>::empty().insert(level_of(l))),
                },
            decreases rest.len(),
        {
            let (key, value) = rest.remove(0);
            let ghost before = filter.nostr_tags;
            filter = filter.with_nostr_tag(key, value);
            proof {
                crate::filter::lemma_appended_views(before, filter.nostr_tags, key@, value@);
                assert(all_tags[j as int] == (key, value));
                assert(pair_views(all_tags.subrange(0, j + 1)) =~= pair_views(all_tags.subrange(0, j as int)).push(
                    (key@, value@),
                ));
            }
            j = j + 1;
            proof {
                assert(rest@ =~= all_tags.subrange(j as int, all_tags.len() as int));
            }
        }
        proof {
            assert(all_tags.subrange(0, j as int) =~= all_tags);
            assert(pair_views(all_tags).len() == all_tags.len());
        }
        Ok(filter)
    }
}

/// The alerting settings that the command line asks for: none without a
/// recipient; otherwise the recipient key, the optional minimum level and
/// the messaging mode. A bad recipient key is a collection error starting
/// `Invalid recipient public key: `; a bad level name (checked after the
/// key) is the collection error `Invalid level`.
pub fn build_private_message_config(
    send_to: Option<String>,
    send_min_level: Option<String>,
    use_nip17: bool,
) -> (r: Result<Option<PrivateMessageConfig>, CollectorError>)
    ensures
        send_to.is_none() ==> r == Ok::<Option<PrivateMessageConfig>, CollectorError>(None),
        send_to.is_some() ==> {
            &&& (r is Ok <==> key_given_ok(send_to) && level_given_ok(send_min_level))
            &&& !key_given_ok(send_to) ==> r is Err && r->Err_0 is Collection
                && "Invalid recipient public key: "@.is_prefix_of(r->Err_0->Collection_0@)
            &&& key_given_ok(send_to) && !level_given_ok(send_min_level) ==> r is Err && r->Err_0 is Collection
                && r->Err_0->Collection_0@ == "Invalid level"@
            &&& r is Ok ==> {
                let c = r->Ok_0;
                &&& c is Some
                &&& c.unwrap().recipient_pubkey@ == key_of(send_to.unwrap())
                &&& c.unwrap().min_level == match send_min_level {
                    None => None,
                    Some(l) => Some(level_of(l)),
                }
                &&& c.unwrap().use_nip17 == use_nip17
            }
        },
{
    match send_to {
        None => Ok(None),
        Some(text) => {
            let recipient_pubkey = key_or_error(text.as_str(), "Invalid recipient public key: ")?;
            let min_level = match send_min_level {
                None => None,
                Some(l) => match parse_level(l.as_str()) {
                    Ok(level) => Some(level),
                    Err(e) => {
                        return Err(CollectorError::Collection(e));
                    },
                },
            };
            Ok(Some(PrivateMessageConfig { recipient_pubkey, min_level, use_nip17 }))
        },
    }
}

} // verus!
