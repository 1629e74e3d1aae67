//! Tunables of a consumer, and the builder that fills in their defaults.

use vstd::prelude::*;

verus! {

/// The poll interval used when none is set: five seconds, in milliseconds.
pub const DEFAULT_CHECK_INTERVAL: u64 = 5_000;

/// Whether messages are acknowledged automatically when nothing is set.
pub const DEFAULT_AUTO_ACK: bool = true;

/// How a consumer polls and acknowledges.
#[derive(Clone, Copy, Debug, PartialEq, Eq, Structural)]
pub struct Config {
    /// The least time between the starts of two receive calls, in milliseconds.
    pub check_interval: u64,
    /// Whether a message is deleted from the queue as soon as its handler has
    /// returned. When `false`, messages stay in the queue until they are
    /// acknowledged by hand.
    pub auto_ack: bool,
}

/// The configuration of a consumer for which nothing was set.
pub open spec fn default_config() -> Config {
    Config { check_interval: DEFAULT_CHECK_INTERVAL, auto_ack: DEFAULT_AUTO_ACK }
}

/// The whole milliseconds in a span of `secs` seconds and `subsec_nanos`
/// nanoseconds; a span too long for the clock counts as the longest there is.
pub open spec fn millis_in(secs: u64, subsec_nanos: u32) -> int {
    let exact = secs * 1_000 + subsec_nanos / 1_000_000;
    if exact <= u64::MAX {
        exact
    } else {
        u64::MAX as int
    }
}

/// The whole milliseconds in a span of `secs` seconds and `subsec_nanos`
/// nanoseconds, as a poll interval is written.
pub fn millis_of(secs: u64, subsec_nanos: u32) -> (millis: u64)
    ensures
        millis == millis_in(secs, subsec_nanos),
{
    let fraction: u64 = (subsec_nanos / 1_000_000) as u64;
    if secs > u64::MAX / 1_000 {
        u64::MAX
    } else {
        let whole: u64 = secs * 1_000;
        whole.saturating_add(fraction)
    }
}

impl Config {
    /// The poll interval in milliseconds.
    pub fn check_interval(&self) -> (millis: u64)
        ensures
            millis == self.check_interval,
    {
        self.check_interval
    }

    /// Whether messages are acknowledged automatically.
    pub fn auto_ack(&self) -> (auto_ack: bool)
        ensures
            auto_ack == self.auto_ack,
    {
        self.auto_ack
    }
}

/// Collects the settings of a [`Config`]; whatever is left unset takes its
/// default when the configuration is built.
#[derive(Clone, Copy, Debug)]
pub struct ConfigBuilder {
    pub check_interval: Option<u64>,
    pub auto_ack: Option<bool>,
}

impl ConfigBuilder {
    /// The configuration that `build` produces from this builder.
    pub open spec fn built(self) -> Config {
        Config {
            check_interval: match self.check_interval {
                Some(millis) => millis,
                None => DEFAULT_CHECK_INTERVAL,
            },
            auto_ack: match self.auto_ack {
                Some(auto_ack) => auto_ack,
                None => DEFAULT_AUTO_ACK,
            },
        }
    }

    /// Sets the poll interval, in milliseconds.
    pub fn check_interval(self, millis: u64) -> (builder: Self)
        ensures
            builder == (ConfigBuilder { check_interval: Some(millis), ..self }),
    {
        ConfigBuilder { check_interval: Some(millis), auto_ack: self.auto_ack }
    }

    /// Sets whether messages are acknowledged automatically.
    pub fn auto_ack(self, auto_ack: bool) -> (builder: Self)
        ensures
            builder == (ConfigBuilder { auto_ack: Some(auto_ack), ..self }),
    {
        ConfigBuilder { check_interval: self.check_interval, auto_ack: Some(auto_ack) }
    }

    /// Builds the configuration. This cannot fail: every setting has a default.
    pub fn build(self) -> (config: Config)
        ensures
            config == self.built(),
    {
        let check_interval: u64 = match self.check_interval {
            Some(millis) => millis,
            None => DEFAULT_CHECK_INTERVAL,
        };
        let auto_ack: bool = match self.auto_ack {
            Some(auto_ack) => auto_ack,
            None => DEFAULT_AUTO_ACK,
        };
        Config { check_interval, auto_ack }
    }
}

impl Default for ConfigBuilder {
    /// A builder with nothing set.
    fn default() -> (builder: Self)
        ensures
            builder.check_interval is None,
            builder.auto_ack is None,
            builder.built() == default_config(),
    {
        ConfigBuilder { check_interval: None, auto_ack: None }
    }
}

} // verus!
