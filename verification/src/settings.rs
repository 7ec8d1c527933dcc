use vstd::prelude::*;

verus! {

/// Cloud-side settings: credentials, the polling cadence, the cache window
/// for refreshes, and the dry-run switch.
pub struct NeatoSettings {
    pub email: String,
    pub password: String,
    /// Seconds between polling ticks.
    pub poll_interval: u16,
    /// Seconds a refreshed state stays fresh; triggers inside the window
    /// are skipped.
    pub cache_timeout: u16,
    pub decode_state: bool,
    pub dry_run: bool,
}

/// Bus-side settings: client identity, broker address, and the two topic
/// templates (state out, commands in).
pub struct MqttSettings {
    pub id: String,
    pub host: String,
    pub port: u16,
    pub topic: String,
    pub topic_set: String,
}

/// Everything the bridge is configured with.
pub struct Settings {
    pub neato: NeatoSettings,
    pub mqtt: MqttSettings,
}

/// The default polling cadence in seconds: short while debug logging is on,
/// a minute otherwise.
pub fn default_poll_interval(debug_logging: bool) -> (r: u16)
    ensures
        r == (if debug_logging {
            5u16
        } else {
            60u16
        }),
{
    if debug_logging {
        5
    } else {
        60
    }
}

/// The default cache window in seconds: short while debug logging is on,
/// five minutes otherwise.
pub fn default_cache_timeout(debug_logging: bool) -> (r: u16)
    ensures
        r == (if debug_logging {
            30u16
        } else {
            300u16
        }),
{
    if debug_logging {
        30
    } else {
        5 * 60
    }
}

} // verus!
