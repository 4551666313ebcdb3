use sentrystr_pipeline::api::DEFAULT_QUERY_LIMIT;
use sentrystr_pipeline::{
    build_private_message_config, parse_level, parse_tag, ApiError, CollectorError, DirectMessageConfig,
    EventQuery, FilterOptions, Level, SentryStrTracingBuilder, Timestamp, TraceLevel, TracingError,
};

const NPUB: &str = "npub18kpn83drge7x9vz4cuhh7xta79sl4tfq55se4e554yj90s8y3f7qa49nps";
const HEX: &str = "3d8333c5a3467c62b055c72f7f197df161faad20a5219ae694a92457c0e48a7c";

#[test]
fn levels_parse_case_insensitively() {
    assert_eq!(parse_level("debug"), Ok(Level::Debug));
    assert_eq!(parse_level("INFO"), Ok(Level::Info));
    assert_eq!(parse_level("Warning"), Ok(Level::Warning));
    assert_eq!(parse_level("eRRor"), Ok(Level::Error));
    assert_eq!(parse_level("fatal"), Ok(Level::Fatal));
    assert_eq!(parse_level("warn"), Err("Invalid level".to_string()));
    assert_eq!(parse_level(""), Err("Invalid level".to_string()));
}

#[test]
fn tags_split_at_first_equals() {
    assert_eq!(parse_tag("service=api"), Ok(("service".to_string(), "api".to_string())));
    assert_eq!(parse_tag("k=a=b"), Ok(("k".to_string(), "a=b".to_string())));
    assert_eq!(parse_tag("=v"), Ok((String::new(), "v".to_string())));
    assert_eq!(parse_tag("k="), Ok(("k".to_string(), String::new())));
    assert_eq!(parse_tag("novalue"), Err("Invalid tag format 'novalue'. Expected 'key=value'".to_string()));
}

#[test]
fn no_recipient_means_no_alerting() {
    assert!(matches!(build_private_message_config(None, Some("bogus".to_string()), true), Ok(None)));
}

#[test]
fn recipient_in_bech32_becomes_hex() {
    let cfg = build_private_message_config(Some(NPUB.to_string()), Some("ERROR".to_string()), true).unwrap().unwrap();
    assert_eq!(cfg.recipient_pubkey, HEX);
    assert_eq!(cfg.min_level, Some(Level::Error));
    assert!(cfg.use_nip17);
    let upper = build_private_message_config(Some(HEX.to_uppercase()), None, false).unwrap().unwrap();
    assert_eq!(upper.recipient_pubkey, HEX);
    assert_eq!(upper.min_level, None);
    assert!(!upper.use_nip17);
}

#[test]
fn bad_recipient_or_level_is_an_error() {
    match build_private_message_config(Some("not-a-key".to_string()), None, true) {
        Err(CollectorError::Collection(m)) => assert!(m.starts_with("Invalid recipient public key: ")),
        other => panic!("unexpected {:?}", other),
    }
    match build_private_message_config(Some(HEX.to_string()), Some("loud".to_string()), true) {
        Err(CollectorError::Collection(m)) => assert_eq!(m, "Invalid level"),
        other => panic!("unexpected {:?}", other),
    }
}

fn options() -> FilterOptions {
    FilterOptions {
        limit: Some(10),
        author: None,
        level: None,
        service: None,
        environment: None,
        component: None,
        severity: None,
        tags: Vec::new(),
    }
}

#[test]
fn command_line_filter() {
    let opts = FilterOptions {
        author: Some(NPUB.to_string()),
        level: Some("Error".to_string()),
        service: Some("api".to_string()),
        severity: Some("high".to_string()),
        tags: vec![("team".to_string(), "core".to_string())],
        ..options()
    };
    let f = opts.to_filter().unwrap();
    assert_eq!(f.limit, Some(10));
    assert_eq!(f.authors, Some(vec![HEX.to_string()]));
    assert_eq!(f.levels, Some(vec![Level::Error]));
    assert_eq!(
        f.nostr_tags,
        Some(vec![
            ("service".to_string(), "api".to_string()),
            ("severity".to_string(), "high".to_string()),
            ("team".to_string(), "core".to_string()),
        ])
    );
    let plain = options().to_filter().unwrap();
    assert!(plain.nostr_tags.is_none() && plain.authors.is_none() && plain.levels.is_none());
}

#[test]
fn command_line_filter_errors() {
    let bad_key = FilterOptions { author: Some("zzz".to_string()), level: Some("nope".to_string()), ..options() };
    match bad_key.to_filter() {
        Err(CollectorError::Collection(m)) => assert!(m.starts_with("Invalid public key: ")),
        other => panic!("unexpected {:?}", other),
    }
    let bad_level = FilterOptions { level: Some("nope".to_string()), ..options() };
    match bad_level.to_filter() {
        Err(CollectorError::Collection(m)) => assert_eq!(m, "Invalid level"),
        other => panic!("unexpected {:?}", other),
    }
}

fn query() -> EventQuery {
    EventQuery {
        author: None,
        level: None,
        service: None,
        environment: None,
        component: None,
        severity: None,
        since: None,
        until: None,
        limit: None,
    }
}

#[test]
fn query_filter_defaults_and_bounds() {
    let f = query().to_filter().unwrap();
    assert_eq!(f.limit, Some(DEFAULT_QUERY_LIMIT));
    assert_eq!(f.limit, Some(100));
    let q = EventQuery {
        environment: Some("prod".to_string()),
        component: Some("db".to_string()),
        since: Some(Timestamp::from_secs(1)),
        until: Some(Timestamp::from_secs(9)),
        limit: Some(5),
        level: Some("fatal".to_string()),
        ..query()
    };
    let f = q.to_filter().unwrap();
    assert_eq!(f.limit, Some(5));
    assert_eq!(f.since, Some(Timestamp::from_secs(1)));
    assert_eq!(f.until, Some(Timestamp::from_secs(9)));
    assert_eq!(f.levels, Some(vec![Level::Fatal]));
    assert_eq!(
        f.nostr_tags,
        Some(vec![("env".to_string(), "prod".to_string()), ("component".to_string(), "db".to_string())])
    );
}

#[test]
fn query_errors_are_bad_requests() {
    let e = EventQuery { author: Some("npub1bad".to_string()), ..query() }.to_filter().unwrap_err();
    assert_eq!(e.status_code(), 400);
    assert!(e.message().starts_with("Bad request: Invalid public key: "));
    let e = EventQuery { level: Some("verbose".to_string()), ..query() }.to_filter().unwrap_err();
    assert!(matches!(&e, ApiError::BadRequest(m) if m == "Invalid level"));
    assert_eq!(e.detail(), "Invalid level");
}

#[test]
fn api_error_texts_and_statuses() {
    assert_eq!(ApiError::Collection("down".to_string()).message(), "Collection error: down");
    assert_eq!(ApiError::Internal("oops".to_string()).message(), "Internal error: oops");
    assert_eq!(ApiError::BadRequest("no".to_string()).message(), "Bad request: no");
    assert_eq!(ApiError::Collection("x".to_string()).status_code(), 500);
    assert_eq!(ApiError::Internal("x".to_string()).status_code(), 500);
}

#[test]
fn collector_error_texts() {
    assert_eq!(CollectorError::Nostr("a".to_string()).message(), "Nostr error: a");
    assert_eq!(CollectorError::NostrSdk("a".to_string()).message(), "Nostr SDK error: a");
    assert_eq!(CollectorError::EventBuilder("a".to_string()).message(), "Nostr event builder error: a");
    assert_eq!(CollectorError::Json("a".to_string()).message(), "JSON parsing error: a");
    assert_eq!(CollectorError::SentryStr("a".to_string()).message(), "SentryStr core error: a");
    assert_eq!(CollectorError::Collection("a".to_string()).message(), "Collection error: a");
    assert_eq!(CollectorError::Filter("a".to_string()).message(), "Filter error: a");
}

#[test]
fn tracing_error_texts() {
    assert_eq!(TracingError::SentryStr("a".to_string()).message(), "SentryStr core error: a");
    assert_eq!(TracingError::NostrSdk("a".to_string()).message(), "Nostr SDK error: a");
    assert_eq!(TracingError::Config("a".to_string()).message(), "Configuration error: a");
    assert_eq!(TracingError::Init("a".to_string()).message(), "Initialization error: a");
    assert_eq!(TracingError::FieldExtraction("a".to_string()).message(), "Field extraction error: a");
}

#[test]
fn builder_requires_config() {
    match SentryStrTracingBuilder::new().build() {
        Err(TracingError::Config(m)) => assert_eq!(m, "SentryStr config is required"),
        other => panic!("unexpected {:?}", other),
    }
}

#[test]
fn builder_plan() {
    let plan = SentryStrTracingBuilder::new()
        .with_secret_key_and_relays("SECRET-REDACTED".to_string(), vec!["wss://relay.example".to_string()])
        .with_min_level(TraceLevel::Info)
        .with_fields(false)
        .with_dm_recipient(HEX.to_string(), vec!["wss://relay.example".to_string()])
        .build()
        .unwrap();
    assert_eq!(plan.config.relays, vec!["wss://relay.example".to_string()]);
    assert_eq!(plan.layer.min_level, Some(TraceLevel::Info));
    assert!(!plan.layer.include_fields);
    assert!(plan.layer.include_metadata);
    let alert = plan.layer.alert.unwrap();
    assert_eq!(alert.min_level, Level::Warning);
    assert_eq!(alert.recipient, HEX);
    assert!(alert.use_nip17);
    assert!(plan.direct_messaging.is_some());
}

#[test]
fn direct_message_settings() {
    let dm = DirectMessageConfig::new(HEX.to_string(), Vec::new()).with_min_level(Level::Error).with_nip17(false);
    let plan = SentryStrTracingBuilder::new()
        .with_generated_keys_and_relays(Vec::new())
        .with_direct_messaging(dm)
        .with_metadata(false)
        .build()
        .unwrap();
    assert_eq!(plan.config.secret_key.len(), 64);
    assert!(plan.config.secret_key.chars().all(|c| c.is_ascii_hexdigit()));
    assert!(!plan.layer.include_metadata);
    let alert = plan.layer.alert.unwrap();
    assert_eq!(alert.min_level, Level::Error);
    assert!(!alert.use_nip17);
}
