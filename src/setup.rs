use vstd::prelude::*;

use crate::alert::AlertConfig;
use crate::capture::{SentryStrLayer, TraceLevel};
use crate::error::TracingError;
use crate::level::Level;

verus! {

/// Connection settings of the publishing client: its secret key (hex) and
/// the relays it publishes to.
#[derive(Clone, Debug)]
pub struct Config {
    pub secret_key: String,
    pub relays: Vec<String>,
}

impl Config {
    pub fn new(secret_key: String, relays: Vec<String>) -> (r: Config)
        ensures
            r == (Config { secret_key, relays }),
    {
        Config { secret_key, relays }
    }
}

/// Relies on nostr's `Keys::generate`, which draws a fresh random key pair,
/// and `SecretKey::to_secret_hex`, which writes its 32 secret bytes as 64
/// hex digits.
#[verifier::external_body]
fn generate_secret_key_hex() -> (r: String)
    ensures
        r@.len() == 64,
{
    nostr::key::Keys::generate().secret_key().to_secret_hex()
}

/// Alerting settings of capture: the recipient key (hex), an optional
/// minimum level (`Warning` when absent), the messaging mode and the relays
/// that alerts go out through.
#[derive(Clone, Debug)]
pub struct DirectMessageConfig {
    pub recipient_pubkey: String,
    pub min_level: Option<Level>,
    pub use_nip17: bool,
    pub relays: Vec<String>,
}

impl DirectMessageConfig {
    /// Alerts to `recipient_pubkey` through `relays`, gift-wrapped, from the default level.
    pub fn new(recipient_pubkey: String, relays: Vec<String>) -> (r: DirectMessageConfig)
        ensures
            r == (DirectMessageConfig { recipient_pubkey, min_level: None, use_nip17: true, relays }),
    {
        DirectMessageConfig { recipient_pubkey, min_level: None, use_nip17: true, relays }
    }

    pub fn with_min_level(self, level: Level) -> (r: DirectMessageConfig)
        ensures
            r == (DirectMessageConfig { min_level: Some(level), ..self }),
    {
        DirectMessageConfig { min_level: Some(level), ..self }
    }

    pub fn with_nip17(self, use_nip17: bool) -> (r: DirectMessageConfig)
        ensures
            r == (DirectMessageConfig { use_nip17, ..self }),
    {
        DirectMessageConfig { use_nip17, ..self }
    }

    /// The alert configuration these settings give; the minimum level
    /// defaults to `Warning`.
    pub fn alert_config(&self) -> (r: AlertConfig)
        ensures
            r.recipient@ == self.recipient_pubkey@,
            r.min_level == match self.min_level {
                None => Level::Warning,
                Some(l) => l,
            },
            r.use_nip17 == self.use_nip17,
    {
        let min_level = match self.min_level {
            None => Level::Warning,
            Some(l) => l,
        };
        AlertConfig { recipient: self.recipient_pubkey.clone(), min_level, use_nip17: self.use_nip17 }
    }
}

/// Everything needed to start capture: the publishing client's settings,
/// the capture settings, and the alerting settings if any.
#[derive(Debug)]
pub struct CapturePlan {
    pub config: Config,
    pub layer: SentryStrLayer,
    pub direct_messaging: Option<DirectMessageConfig>,
}

/// Step-by-step configuration of capture.
#[derive(Clone, Debug)]
pub struct SentryStrTracingBuilder {
    pub config: Option<Config>,
    pub dm_config: Option<DirectMessageConfig>,
    pub min_level: Option<TraceLevel>,
    pub include_fields: bool,
    pub include_metadata: bool,
}

impl SentryStrTracingBuilder {
    /// No client settings, no alerting, every level, fields and call-site fields kept.
    pub fn new() -> (r: SentryStrTracingBuilder)
        ensures
            r.config.is_none(),
            r.dm_config.is_none(),
            r.min_level.is_none(),
            r.include_fields,
            r.include_metadata,
    {
        SentryStrTracingBuilder {
            config: None,
            dm_config: None,
            min_level: None,
            include_fields: true,
            include_metadata: true,
        }
    }

    pub fn with_config(self, config: Config) -> (r: SentryStrTracingBuilder)
        ensures
            r == (SentryStrTracingBuilder { config: Some(config), ..self }),
    {
        SentryStrTracingBuilder { config: Some(config), ..self }
    }

    pub fn with_secret_key_and_relays(self, secret_key: String, relays: Vec<String>) -> (r: SentryStrTracingBuilder)
        ensures
            r == (SentryStrTracingBuilder { config: Some(Config { secret_key, relays }), ..self }),
    {
        SentryStrTracingBuilder { config: Some(Config::new(secret_key, relays)), ..self }
    }

    /// Client settings with a freshly generated secret key.
    pub fn with_generated_keys_and_relays(self, relays: Vec<String>) -> (r: SentryStrTracingBuilder)
        ensures
            r.config.is_some(),
            r.config.unwrap().relays == relays,
            r.config.unwrap().secret_key@.len() == 64,
            r == (SentryStrTracingBuilder { config: r.config, ..self }),
    {
        let secret_key = generate_secret_key_hex();
        SentryStrTracingBuilder { config: Some(Config::new(secret_key, relays)), ..self }
    }

    pub fn with_direct_messaging(self, dm_config: DirectMessageConfig) -> (r: SentryStrTracingBuilder)
        ensures
            r == (SentryStrTracingBuilder { dm_config: Some(dm_config), ..self }),
    {
        SentryStrTracingBuilder { dm_config: Some(dm_config), ..self }
    }

    /// Alerts to `recipient_pubkey` through `relays` with the default settings.
    pub fn with_dm_recipient(self, recipient_pubkey: String, relays: Vec<String>) -> (r: SentryStrTracingBuilder)
        ensures
            r == (SentryStrTracingBuilder {
                dm_config: Some(DirectMessageConfig { recipient_pubkey, min_level: None, use_nip17: true, relays }),
                ..self
            }),
    {
        SentryStrTracingBuilder { dm_config: Some(DirectMessageConfig::new(recipient_pubkey, relays)), ..self }
    }

    pub fn with_min_level(self, level: TraceLevel) -> (r: SentryStrTracingBuilder)
        ensures
            r == (SentryStrTracingBuilder { min_level: Some(level), ..self }),
    {
        SentryStrTracingBuilder { min_level: Some(level), ..self }
    }

    pub fn with_fields(self, keep: bool) -> (r: SentryStrTracingBuilder)
        ensures
            r == (SentryStrTracingBuilder { include_fields: keep, ..self }),
    {
        SentryStrTracingBuilder { include_fields: keep, ..self }
    }

    pub fn with_metadata(self, keep: bool) -> (r: SentryStrTracingBuilder)
        ensures
            r == (SentryStrTracingBuilder { include_metadata: keep, ..self }),
    {
        SentryStrTracingBuilder { include_metadata: keep, ..self }
    }

    /// The plan for starting capture, or the configuration error `SentryStr
    /// config is required` when no client settings were given. The capture
    /// settings take the minimum level and the field choices; alerting,
    /// when configured, uses the alert settings (`Warning` by default).
    pub fn build(self) -> (r: Result<CapturePlan, TracingError>)
        ensures
            self.config.is_none() ==> r is Err && r->Err_0 is Config
                && r->Err_0->Config_0@ == "SentryStr config is required"@,
            self.config.is_some() ==> r is Ok && {
                let p = r->Ok_0;
                &&& p.config == self.config.unwrap()
                &&& p.layer.min_level == self.min_level
                &&& p.layer.include_fields == self.include_fields
                &&& p.layer.include_metadata == self.include_metadata
                &&& p.direct_messaging == self.dm_config
                &&& p.layer.alert.is_some() == self.dm_config.is_some()
                &&& self.dm_config.is_some() ==> {
                    let a = p.layer.alert.unwrap();
                    let d = self.dm_config.unwrap();
                    &&& a.recipient@ == d.recipient_pubkey@
                    &&& a.min_level == match d.min_level {
                        None => Level::Warning,
                        Some(l) => l,
                    }
                    &&& a.use_nip17 == d.use_nip17
                }
            },
    {
        let SentryStrTracingBuilder { config, dm_config, min_level, include_fields, include_metadata } = self;
        let config = match config {
            None => {
                return Err(TracingError::Config(String::from_str("SentryStr config is required")));
            },
            Some(c) => c,
        };
        let mut layer = SentryStrLayer::new().with_fields(include_fields).with_metadata(include_metadata);
        if let Some(level) = min_level {
            layer = layer.with_min_level(level);
        }
        if let Some(dm) = &dm_config {
            layer = layer.with_direct_messaging(dm.alert_config());
        }
        Ok(CapturePlan { config, layer, direct_messaging: dm_config })
    }
}

} // verus!
