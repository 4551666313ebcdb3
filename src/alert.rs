use vstd::prelude::*;

use crate::level::Level;

verus! {

/// Where and from which severity matching events are re-sent as confidential
/// direct messages.
#[derive(Clone, Debug)]
pub struct AlertConfig {
    /// Recipient identity (hex public key).
    pub recipient: String,
    /// Least severe level that is forwarded, inclusive.
    pub min_level: Level,
    /// Gift-wrapped private messages when set, encrypted direct messages otherwise.
    pub use_nip17: bool,
}

/// Whether an event at `level` is alerted under `config` (never without one).
pub open spec fn alert_due(config: Option<AlertConfig>, level: Level) -> bool {
    match config {
        None => false,
        Some(c) => level.rank() >= c.min_level.rank(),
    }
}

impl AlertConfig {
    /// Whether an event at `level` is to be alerted: it is at least as severe
    /// as the minimum.
    pub fn should_alert(&self, level: Level) -> (r: bool)
        ensures
            r == (level.rank() >= self.min_level.rank()),
    {
        level.is_at_least(self.min_level)
    }
}

/// Alert gating for an optional configuration.
pub fn alert_wanted(config: &Option<AlertConfig>, level: Level) -> (r: bool)
    ensures
        r == alert_due(*config, level),
{
    match config {
        None => false,
        Some(c) => c.should_alert(level),
    }
}

/// Alerting settings of the collector: the recipient, an optional minimum
/// level (every level when absent) and the messaging mode.
#[derive(Clone, Debug)]
pub struct PrivateMessageConfig {
    pub recipient_pubkey: String,
    pub min_level: Option<Level>,
    pub use_nip17: bool,
}

impl PrivateMessageConfig {
    /// The alert configuration these settings give; the minimum level
    /// defaults to `Debug`.
    pub fn alert_config(&self) -> (r: AlertConfig)
        ensures
            r.recipient@ == self.recipient_pubkey@,
            r.min_level == match self.min_level {
                None => Level::Debug,
                Some(l) => l,
            },
            r.use_nip17 == self.use_nip17,
    {
        let min_level = match self.min_level {
            None => Level::Debug,
            Some(l) => l,
        };
        AlertConfig { recipient: self.recipient_pubkey.clone(), min_level, use_nip17: self.use_nip17 }
    }
}

} // verus!
