//! Stream-opening request models and the keepalive timing they carry.
//!
//! Each server-streamed method takes a request that may name its own ping
//! interval; the supervisor waits one such interval (plus a fixed network
//! allowance) for each inbound item before it acts.
use vstd::prelude::*;

verus! {

/// Extra waiting allowance on top of the requested ping interval, in
/// milliseconds, covering network latency.
pub const NET_DELAY_MS: u64 = 2000;

/// The ping interval assumed when a request names none, in milliseconds.
pub const DEFAULT_PING_DELAY_MS: u64 = 5000;

/// Requested ping cadence for streams that carry a settings block.
#[derive(Clone, Copy, Debug, PartialEq, Eq, Structural)]
pub struct PingDelaySettings {
    pub ping_delay_ms: Option<i32>,
}

/// Opens the own-trades stream for a set of accounts.
#[derive(Clone, Debug)]
pub struct TradesStreamRequest {
    pub accounts: Vec<String>,
    pub ping_delay_ms: Option<i32>,
}

/// Opens the order-state stream for a set of accounts.
#[derive(Clone, Debug)]
pub struct OrderStateStreamRequest {
    pub accounts: Vec<String>,
    pub ping_delay_millis: Option<i32>,
}

/// Opens the portfolio stream for a set of accounts.
#[derive(Clone, Debug)]
pub struct PortfolioStreamRequest {
    pub accounts: Vec<String>,
    pub ping_settings: Option<PingDelaySettings>,
}

/// Opens the positions stream for a set of accounts.
#[derive(Clone, Debug)]
pub struct PositionsStreamRequest {
    pub accounts: Vec<String>,
    pub with_initial_positions: bool,
    pub ping_settings: Option<PingDelaySettings>,
}

/// Opens the server-side market-data stream.
#[derive(Clone, Debug)]
pub struct MarketDataServerSideStreamRequest {
    pub ping_settings: Option<PingDelaySettings>,
}

/// Where a stream request keeps its requested ping interval.
pub trait PingDelayMs {
    /// The ping interval the request asks for, if it names one.
    fn invoke(&self) -> Option<i32>;
}

impl PingDelayMs for TradesStreamRequest {
    fn invoke(&self) -> (r: Option<i32>)
        ensures
            r == self.ping_delay_ms,
    {
        self.ping_delay_ms
    }
}

impl PingDelayMs for OrderStateStreamRequest {
    fn invoke(&self) -> (r: Option<i32>)
        ensures
            r == self.ping_delay_millis,
    {
        self.ping_delay_millis
    }
}

/// The requested ping interval inside an optional settings block.
pub open spec fn spec_settings_delay(s: Option<PingDelaySettings>) -> Option<i32> {
    match s {
        Some(settings) => settings.ping_delay_ms,
        None => None,
    }
}

impl PingDelayMs for PortfolioStreamRequest {
    fn invoke(&self) -> (r: Option<i32>)
        ensures
            r == spec_settings_delay(self.ping_settings),
    {
        match self.ping_settings {
            Some(settings) => settings.ping_delay_ms,
            None => None,
        }
    }
}

impl PingDelayMs for PositionsStreamRequest {
    fn invoke(&self) -> (r: Option<i32>)
        ensures
            r == spec_settings_delay(self.ping_settings),
    {
        match self.ping_settings {
            Some(settings) => settings.ping_delay_ms,
            None => None,
        }
    }
}

impl PingDelayMs for MarketDataServerSideStreamRequest {
    fn invoke(&self) -> (r: Option<i32>)
        ensures
            r == spec_settings_delay(self.ping_settings),
    {
        match self.ping_settings {
            Some(settings) => settings.ping_delay_ms,
            None => None,
        }
    }
}

/// How long the supervisor waits for one inbound item, in milliseconds:
/// the requested ping interval (or the default when none is named) plus
/// the network allowance.
pub fn delay_ms(ping_delay: Option<i32>) -> (r: u64)
    requires
        ping_delay is Some ==> ping_delay.unwrap() >= 0,
    ensures
        r == match ping_delay {
            Some(d) => d + NET_DELAY_MS,
            None => DEFAULT_PING_DELAY_MS + NET_DELAY_MS,
        },
{
    let delay: u64 = match ping_delay {
        Some(d) => d as u64,
        None => DEFAULT_PING_DELAY_MS,
    };
    delay + NET_DELAY_MS
}

} // verus!
