//! Normalization of the per-stream response envelopes into one common
//! tagged event union, so downstream consumers handle a single type no
//! matter which stream an event came from.
//!
//! The wire-schema response types are external collaborators; they are
//! modeled here by the fields the client logic carries through.
use vstd::prelude::*;
use crate::quotation::Quotation;

verus! {

/// A trade executed against one of the caller's orders.
#[derive(Clone, Debug)]
pub struct OrderTrades {
    pub order_id: String,
    pub account_id: String,
}

/// Acknowledgement of a subscription change.
#[derive(Clone, Debug)]
pub struct SubscriptionResponse {
    pub tracking_id: String,
}

/// A last-price tick.
#[derive(Clone, Debug)]
pub struct LastPrice {
    pub instrument_uid: String,
    pub price: Option<Quotation>,
}

/// Acknowledgement of a candle subscription change.
#[derive(Clone, Debug)]
pub struct SubscribeCandlesResponse {
    pub tracking_id: String,
}

/// Acknowledgement of an order-book subscription change.
#[derive(Clone, Debug)]
pub struct SubscribeOrderBookResponse {
    pub tracking_id: String,
}

/// Acknowledgement of a last-price subscription change.
#[derive(Clone, Debug)]
pub struct SubscribeLastPriceResponse {
    pub tracking_id: String,
}

/// Acknowledgement of a trades subscription change.
#[derive(Clone, Debug)]
pub struct SubscribeTradesResponse {
    pub tracking_id: String,
}

/// Acknowledgement of a trading-info subscription change.
#[derive(Clone, Debug)]
pub struct SubscribeInfoResponse {
    pub tracking_id: String,
}

/// Acknowledgement of a portfolio subscription.
#[derive(Clone, Debug)]
pub struct PortfolioSubscriptionResult {
    pub tracking_id: String,
}

/// One candle of market data.
#[derive(Clone, Debug)]
pub struct Candle {
    pub instrument_uid: String,
    pub open: Option<Quotation>,
    pub close: Option<Quotation>,
}

/// One anonymized market trade.
#[derive(Clone, Debug)]
pub struct Trade {
    pub instrument_uid: String,
    pub price: Option<Quotation>,
    pub quantity: i64,
}

/// An order-book snapshot.
#[derive(Clone, Debug)]
pub struct OrderBook {
    pub instrument_uid: String,
    pub depth: i32,
}

/// A trading-status change for one instrument.
#[derive(Clone, Debug)]
pub struct TradingStatus {
    pub instrument_uid: String,
}

/// A portfolio snapshot.
#[derive(Clone, Debug)]
pub struct PortfolioResponse {
    pub account_id: String,
}

/// An order-state change.
#[derive(Clone, Debug)]
pub struct OrderStateResponse {
    pub order_id: String,
}

/// A position update.
#[derive(Clone, Debug)]
pub struct PositionData {
    pub account_id: String,
}

/// Acknowledgement of a positions subscription.
#[derive(Clone, Debug)]
pub struct PositionsSubscriptionResult {
    pub tracking_id: String,
}

/// The initial-position snapshot sent when a positions stream opens.
#[derive(Clone, Debug)]
pub struct PositionsResponse {
    pub account_id: String,
}

/// The one tagged event union every stream's envelope is normalized into.
#[derive(Clone, Debug)]
pub enum StreamResponse {
    Ping,
    OrderTrades(OrderTrades),
    TradesSubscription(SubscriptionResponse),
    LastPrice(LastPrice),
    SubscribeCandlesResponse(SubscribeCandlesResponse),
    SubscribeOrderBookResponse(SubscribeOrderBookResponse),
    SubscribeLastPriceResponse(SubscribeLastPriceResponse),
    SubscribeTradesResponse(SubscribeTradesResponse),
    SubscribeInfoResponse(SubscribeInfoResponse),
    PortfolioSubscriptionResult(PortfolioSubscriptionResult),
    Candle(Candle),
    Trade(Trade),
    Orderbook(OrderBook),
    TradingStatus(TradingStatus),
    PortfolioResponse(PortfolioResponse),
    MyTradesSubscription(SubscriptionResponse),
    OrderState(OrderStateResponse),
    Position(PositionData),
    PositionsSubscriptions(PositionsSubscriptionResult),
    InitialPositions(PositionsResponse),
}

/// Payload of one inbound market-data stream envelope.
#[derive(Clone, Debug)]
pub enum MarketDataResponsePayload {
    SubscribeCandlesResponse(SubscribeCandlesResponse),
    SubscribeOrderBookResponse(SubscribeOrderBookResponse),
    SubscribeTradesResponse(SubscribeTradesResponse),
    SubscribeInfoResponse(SubscribeInfoResponse),
    SubscribeLastPriceResponse(SubscribeLastPriceResponse),
    Candle(Candle),
    Trade(Trade),
    Orderbook(OrderBook),
    TradingStatus(TradingStatus),
    LastPrice(LastPrice),
    Ping,
}

/// One inbound market-data stream envelope.
#[derive(Clone, Debug)]
pub struct MarketDataResponse {
    pub payload: Option<MarketDataResponsePayload>,
}

/// Payload of one inbound own-trades stream envelope.
#[derive(Clone, Debug)]
pub enum TradesStreamPayload {
    OrderTrades(OrderTrades),
    Subscription(SubscriptionResponse),
    Ping,
}

/// One inbound own-trades stream envelope.
#[derive(Clone, Debug)]
pub struct TradesStreamResponse {
    pub payload: Option<TradesStreamPayload>,
}

/// Payload of one inbound portfolio stream envelope.
#[derive(Clone, Debug)]
pub enum PortfolioStreamPayload {
    Subscriptions(PortfolioSubscriptionResult),
    Portfolio(PortfolioResponse),
    Ping,
}

/// One inbound portfolio stream envelope.
#[derive(Clone, Debug)]
pub struct PortfolioStreamResponse {
    pub payload: Option<PortfolioStreamPayload>,
}

/// Payload of one inbound positions stream envelope.
#[derive(Clone, Debug)]
pub enum PositionsStreamPayload {
    Subscriptions(PositionsSubscriptionResult),
    Position(PositionData),
    InitialPositions(PositionsResponse),
    Ping,
}

/// One inbound positions stream envelope.
#[derive(Clone, Debug)]
pub struct PositionsStreamResponse {
    pub payload: Option<PositionsStreamPayload>,
}

/// Payload of one inbound order-state stream envelope.
#[derive(Clone, Debug)]
pub enum OrderStateStreamPayload {
    OrderState(OrderStateResponse),
    Subscription(SubscriptionResponse),
    Ping,
}

/// One inbound order-state stream envelope.
#[derive(Clone, Debug)]
pub struct OrderStateStreamResponse {
    pub payload: Option<OrderStateStreamPayload>,
}

/// How a market-data envelope is normalized: each payload kind maps to its
/// event; an absent payload and an explicit ping both normalize to a ping.
pub open spec fn spec_from_market(v: MarketDataResponse) -> StreamResponse {
    match v.payload {
        Some(MarketDataResponsePayload::SubscribeCandlesResponse(x)) =>
            StreamResponse::SubscribeCandlesResponse(x),
        Some(MarketDataResponsePayload::SubscribeOrderBookResponse(x)) =>
            StreamResponse::SubscribeOrderBookResponse(x),
        Some(MarketDataResponsePayload::SubscribeTradesResponse(x)) =>
            StreamResponse::SubscribeTradesResponse(x),
        Some(MarketDataResponsePayload::SubscribeInfoResponse(x)) =>
            StreamResponse::SubscribeInfoResponse(x),
        Some(MarketDataResponsePayload::SubscribeLastPriceResponse(x)) =>
            StreamResponse::SubscribeLastPriceResponse(x),
        Some(MarketDataResponsePayload::Candle(x)) => StreamResponse::Candle(x),
        Some(MarketDataResponsePayload::Trade(x)) => StreamResponse::Trade(x),
        Some(MarketDataResponsePayload::Orderbook(x)) => StreamResponse::Orderbook(x),
        Some(MarketDataResponsePayload::TradingStatus(x)) => StreamResponse::TradingStatus(x),
        Some(MarketDataResponsePayload::LastPrice(x)) => StreamResponse::LastPrice(x),
        Some(MarketDataResponsePayload::Ping) => StreamResponse::Ping,
        None => StreamResponse::Ping,
    }
}

/// How an own-trades envelope is normalized.
pub open spec fn spec_from_trades(v: TradesStreamResponse) -> StreamResponse {
    match v.payload {
        Some(TradesStreamPayload::OrderTrades(x)) => StreamResponse::OrderTrades(x),
        Some(TradesStreamPayload::Subscription(x)) => StreamResponse::TradesSubscription(x),
        Some(TradesStreamPayload::Ping) => StreamResponse::Ping,
        None => StreamResponse::Ping,
    }
}

/// How a portfolio envelope is normalized.
pub open spec fn spec_from_portfolio(v: PortfolioStreamResponse) -> StreamResponse {
    match v.payload {
        Some(PortfolioStreamPayload::Subscriptions(x)) =>
            StreamResponse::PortfolioSubscriptionResult(x),
        Some(PortfolioStreamPayload::Portfolio(x)) => StreamResponse::PortfolioResponse(x),
        Some(PortfolioStreamPayload::Ping) => StreamResponse::Ping,
        None => StreamResponse::Ping,
    }
}

/// How a positions envelope is normalized.
pub open spec fn spec_from_positions(v: PositionsStreamResponse) -> StreamResponse {
    match v.payload {
        Some(PositionsStreamPayload::Subscriptions(x)) =>
            StreamResponse::PositionsSubscriptions(x),
        Some(PositionsStreamPayload::Position(x)) => StreamResponse::Position(x),
        Some(PositionsStreamPayload::InitialPositions(x)) =>
            StreamResponse::InitialPositions(x),
        Some(PositionsStreamPayload::Ping) => StreamResponse::Ping,
        None => StreamResponse::Ping,
    }
}

/// How an order-state envelope is normalized.
pub open spec fn spec_from_order_state(v: OrderStateStreamResponse) -> StreamResponse {
    match v.payload {
        Some(OrderStateStreamPayload::OrderState(x)) => StreamResponse::OrderState(x),
        Some(OrderStateStreamPayload::Subscription(x)) =>
            StreamResponse::MyTradesSubscription(x),
        Some(OrderStateStreamPayload::Ping) => StreamResponse::Ping,
        None => StreamResponse::Ping,
    }
}

impl From<MarketDataResponse> for StreamResponse {
    fn from(value: MarketDataResponse) -> (r: StreamResponse) {
        match value.payload {
            Some(MarketDataResponsePayload::SubscribeCandlesResponse(x)) =>
                StreamResponse::SubscribeCandlesResponse(x),
            Some(MarketDataResponsePayload::SubscribeOrderBookResponse(x)) =>
                StreamResponse::SubscribeOrderBookResponse(x),
            Some(MarketDataResponsePayload::SubscribeTradesResponse(x)) =>
                StreamResponse::SubscribeTradesResponse(x),
            Some(MarketDataResponsePayload::SubscribeInfoResponse(x)) =>
                StreamResponse::SubscribeInfoResponse(x),
            Some(MarketDataResponsePayload::SubscribeLastPriceResponse(x)) =>
                StreamResponse::SubscribeLastPriceResponse(x),
            Some(MarketDataResponsePayload::Candle(x)) => StreamResponse::Candle(x),
            Some(MarketDataResponsePayload::Trade(x)) => StreamResponse::Trade(x),
            Some(MarketDataResponsePayload::Orderbook(x)) => StreamResponse::Orderbook(x),
            Some(MarketDataResponsePayload::TradingStatus(x)) =>
                StreamResponse::TradingStatus(x),
            Some(MarketDataResponsePayload::LastPrice(x)) => StreamResponse::LastPrice(x),
            Some(MarketDataResponsePayload::Ping) => StreamResponse::Ping,
            None => StreamResponse::Ping,
        }
    }
}

impl vstd::std_specs::convert::FromSpecImpl<MarketDataResponse> for StreamResponse {
    open spec fn obeys_from_spec() -> bool {
        true
    }

    open spec fn from_spec(v: MarketDataResponse) -> StreamResponse {
        spec_from_market(v)
    }
}

impl From<TradesStreamResponse> for StreamResponse {
    fn from(value: TradesStreamResponse) -> (r: StreamResponse) {
        match value.payload {
            Some(TradesStreamPayload::OrderTrades(x)) => StreamResponse::OrderTrades(x),
            Some(TradesStreamPayload::Subscription(x)) =>
                StreamResponse::TradesSubscription(x),
            Some(TradesStreamPayload::Ping) => StreamResponse::Ping,
            None => StreamResponse::Ping,
        }
    }
}

impl vstd::std_specs::convert::FromSpecImpl<TradesStreamResponse> for StreamResponse {
    open spec fn obeys_from_spec() -> bool {
        true
    }

    open spec fn from_spec(v: TradesStreamResponse) -> StreamResponse {
        spec_from_trades(v)
    }
}

impl From<PortfolioStreamResponse> for StreamResponse {
    fn from(value: PortfolioStreamResponse) -> (r: StreamResponse) {
        match value.payload {
            Some(PortfolioStreamPayload::Subscriptions(x)) =>
                StreamResponse::PortfolioSubscriptionResult(x),
            Some(PortfolioStreamPayload::Portfolio(x)) =>
                StreamResponse::PortfolioResponse(x),
            Some(PortfolioStreamPayload::Ping) => StreamResponse::Ping,
            None => StreamResponse::Ping,
        }
    }
}

impl vstd::std_specs::convert::FromSpecImpl<PortfolioStreamResponse> for StreamResponse {
    open spec fn obeys_from_spec() -> bool {
        true
    }

    open spec fn from_spec(v: PortfolioStreamResponse) -> StreamResponse {
        spec_from_portfolio(v)
    }
}

impl From<PositionsStreamResponse> for StreamResponse {
    fn from(value: PositionsStreamResponse) -> (r: StreamResponse) {
        match value.payload {
            Some(PositionsStreamPayload::Subscriptions(x)) =>
                StreamResponse::PositionsSubscriptions(x),
            Some(PositionsStreamPayload::Position(x)) => StreamResponse::Position(x),
            Some(PositionsStreamPayload::InitialPositions(x)) =>
                StreamResponse::InitialPositions(x),
            Some(PositionsStreamPayload::Ping) => StreamResponse::Ping,
            None => StreamResponse::Ping,
        }
    }
}

impl vstd::std_specs::convert::FromSpecImpl<PositionsStreamResponse> for StreamResponse {
    open spec fn obeys_from_spec() -> bool {
        true
    }

    open spec fn from_spec(v: PositionsStreamResponse) -> StreamResponse {
        spec_from_positions(v)
    }
}

impl From<OrderStateStreamResponse> for StreamResponse {
    fn from(value: OrderStateStreamResponse) -> (r: StreamResponse) {
        match value.payload {
            Some(OrderStateStreamPayload::OrderState(x)) => StreamResponse::OrderState(x),
            Some(OrderStateStreamPayload::Subscription(x)) =>
                StreamResponse::MyTradesSubscription(x),
            Some(OrderStateStreamPayload::Ping) => StreamResponse::Ping,
            None => StreamResponse::Ping,
        }
    }
}

impl vstd::std_specs::convert::FromSpecImpl<OrderStateStreamResponse> for StreamResponse {
    open spec fn obeys_from_spec() -> bool {
        true
    }

    open spec fn from_spec(v: OrderStateStreamResponse) -> StreamResponse {
        spec_from_order_state(v)
    }
}

} // verus!
