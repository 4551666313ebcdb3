use vstd::prelude::*;

use crate::event::Timestamp;
use crate::filter::{apply_transport_filters, pair_seq, pair_views, service_pairs, EventFilter};
use crate::level::Level;
use crate::options::{key_given_ok, key_of, level_given_ok, level_of};
use crate::parse::{parse_level, parse_public_key};

verus! {

/// How many raw messages a query asks for when it names no limit.
pub const DEFAULT_QUERY_LIMIT: usize = 100;

/// Failures of the query interface, each with a description.
#[derive(Clone, Debug)]
pub enum ApiError {
    Collection(String),
    Internal(String),
    BadRequest(String),
}

impl ApiError {
    pub open spec fn spec_message(self) -> Seq<char> {
        match self {
            ApiError::Collection(m) => "Collection error: "@ + m@,
            ApiError::Internal(m) => "Internal error: "@ + m@,
            ApiError::BadRequest(m) => "Bad request: "@ + m@,
        }
    }

    /// The error as text: its kind, then its description.
    pub fn message(&self) -> (r: String)
        ensures
            r@ == self.spec_message(),
    {
        match self {
            ApiError::Collection(m) => String::from_str("Collection error: ").concat(m.as_str()),
            ApiError::Internal(m) => String::from_str("Internal error: ").concat(m.as_str()),
            ApiError::BadRequest(m) => String::from_str("Bad request: ").concat(m.as_str()),
        }
    }

    /// The HTTP status that answers the error: 400 for a bad request, 500 otherwise.
    pub fn status_code(&self) -> (r: u16)
        ensures
            r == if self is BadRequest {
                400u16
            } else {
                500u16
            },
    {
        match self {
            ApiError::BadRequest(_) => 400,
            _ => 500,
        }
    }

    /// The description alone, as the body of an error response carries it.
    pub fn detail(&self) -> (r: String)
        ensures
            r@ == match self {
                ApiError::Collection(m) => m@,
                ApiError::Internal(m) => m@,
                ApiError::BadRequest(m) => m@,
            },
    {
        match self {
            ApiError::Collection(m) => m.clone(),
            ApiError::Internal(m) => m.clone(),
            ApiError::BadRequest(m) => m.clone(),
        }
    }
}

/// The parameters of an event query.
#[derive(Clone, Debug)]
pub struct EventQuery {
    pub author: Option<String>,
    pub level: Option<String>,
    pub service: Option<String>,
    pub environment: Option<String>,
    pub component: Option<String>,
    pub severity: Option<String>,
    pub since: Option<Timestamp>,
    pub until: Option<Timestamp>,
    pub limit: Option<usize>,
}

impl EventQuery {
    /// The filter the query describes; the limit defaults to 100. A bad
    /// author key is a bad request starting `Invalid public key: `; a bad
    /// level name (checked after the key) is the bad request `Invalid level`.
    pub fn to_filter(self) -> (r: Result<EventFilter, ApiError>)
        ensures
            r is Ok <==> key_given_ok(self.author) && level_given_ok(self.level),
            !key_given_ok(self.author) ==> r is Err && r->Err_0 is BadRequest
                && "Invalid public key: "@.is_prefix_of(r->Err_0->BadRequest_0@),
            key_given_ok(self.author) && !level_given_ok(self.level) ==> r is Err && r->Err_0 is BadRequest
                && r->Err_0->BadRequest_0@ == "Invalid level"@,
            r is Ok ==> {
                let f = r->Ok_0;
                let transport = service_pairs(self.service, self.environment, self.component, self.severity);
                &&& f.limit == Some(
                    match self.limit {
                        None => DEFAULT_QUERY_LIMIT,
                        Some(n) => n,
                    },
                )
                &&& f.author_set() == match self.author {
                    None => None,
                    Some(a) => Some(Set::<Seq<char>>::empty().insert(key_of(a))),
                }
                &&& f.level_set() == match self.level {
                    None => None,
                    Some(l) => Some(Set::<Level>::empty().insert(level_of(l))),
                }
                &&& f.since == self.since && f.until == self.until && f.tags.is_none()
                &&& pair_views(pair_seq(f.nostr_tags)) == transport
                &&& f.nostr_tags.is_some() == (transport.len() > 0)
            },
    {
        let EventQuery { author, level, service, environment, component, severity, since, until, limit } = self;
        let n = match limit {
            None => DEFAULT_QUERY_LIMIT,
            Some(n) => n,
        };
        let mut filter = EventFilter::new().with_limit(n);
        if let Some(text) = author {
            match parse_public_key(text.as_str()) {
                Ok(key) => {
                    filter = filter.with_author(key);
                },
                Err(e) => {
                    let message = String::from_str("Invalid public key: ").concat(e.as_str());
                    proof {
                        assert(message@.subrange(0, "Invalid public key: "@.len() as int) =~= "Invalid public key: "@);
                    }
                    return Err(ApiError::BadRequest(message));
                },
            }
        }
        if let Some(text) = level {
            match parse_level(text.as_str()) {
                Ok(l) => {
                    filter = filter.with_level(l);
                },
                Err(e) => {
                    return Err(ApiError::BadRequest(e));
                },
            }
        }
        filter = apply_transport_filters(filter, service, environment, component, severity);
        if let Some(t) = since {
            filter = filter.with_since(t);
        }
        if let Some(t) = until {
            filter = filter.with_until(t);
        }
        proof {
            assert(pair_views(Seq::<(String, String)>::empty()) =~= Seq::empty());
        }
        Ok(filter)
    }
}

} // verus!
