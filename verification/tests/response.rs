use yatis::response::{Candle, LastPrice, MarketDataResponse, MarketDataResponsePayload,
    OrderStateResponse, OrderStateStreamPayload, OrderStateStreamResponse, OrderTrades,
    PortfolioResponse, PortfolioStreamPayload, PortfolioStreamResponse, PositionsResponse,
    PositionsStreamPayload, PositionsStreamResponse, StreamResponse, SubscriptionResponse,
    TradesStreamPayload, TradesStreamResponse};

#[test]
fn market_data_payloads_normalize_to_their_events() {
    let tick = MarketDataResponse {
        payload: Some(MarketDataResponsePayload::LastPrice(LastPrice {
            instrument_uid: "u1".to_string(),
            price: None,
        })),
    };
    assert!(matches!(
        StreamResponse::from(tick),
        StreamResponse::LastPrice(LastPrice { ref instrument_uid, .. }) if instrument_uid == "u1"
    ));

    let candle = MarketDataResponse {
        payload: Some(MarketDataResponsePayload::Candle(Candle {
            instrument_uid: "u2".to_string(),
            open: None,
            close: None,
        })),
    };
    assert!(matches!(StreamResponse::from(candle), StreamResponse::Candle(_)));
}

#[test]
fn absent_and_ping_payloads_normalize_to_ping() {
    assert!(matches!(
        StreamResponse::from(MarketDataResponse { payload: None }),
        StreamResponse::Ping
    ));
    assert!(matches!(
        StreamResponse::from(MarketDataResponse {
            payload: Some(MarketDataResponsePayload::Ping)
        }),
        StreamResponse::Ping
    ));
    assert!(matches!(
        StreamResponse::from(TradesStreamResponse { payload: None }),
        StreamResponse::Ping
    ));
    assert!(matches!(
        StreamResponse::from(PortfolioStreamResponse {
            payload: Some(PortfolioStreamPayload::Ping)
        }),
        StreamResponse::Ping
    ));
}

#[test]
fn trades_stream_normalizes_orders_and_acks() {
    let trade = TradesStreamResponse {
        payload: Some(TradesStreamPayload::OrderTrades(OrderTrades {
            order_id: "o1".to_string(),
            account_id: "a1".to_string(),
        })),
    };
    assert!(matches!(
        StreamResponse::from(trade),
        StreamResponse::OrderTrades(OrderTrades { ref order_id, .. }) if order_id == "o1"
    ));

    let ack = TradesStreamResponse {
        payload: Some(TradesStreamPayload::Subscription(SubscriptionResponse {
            tracking_id: "t".to_string(),
        })),
    };
    assert!(matches!(StreamResponse::from(ack), StreamResponse::TradesSubscription(_)));
}

#[test]
fn portfolio_stream_normalizes_snapshots() {
    let snap = PortfolioStreamResponse {
        payload: Some(PortfolioStreamPayload::Portfolio(PortfolioResponse {
            account_id: "a1".to_string(),
        })),
    };
    assert!(matches!(StreamResponse::from(snap), StreamResponse::PortfolioResponse(_)));
}

#[test]
fn positions_stream_normalizes_initial_and_updates() {
    let initial = PositionsStreamResponse {
        payload: Some(PositionsStreamPayload::InitialPositions(PositionsResponse {
            account_id: "a1".to_string(),
        })),
    };
    assert!(matches!(StreamResponse::from(initial), StreamResponse::InitialPositions(_)));
}

#[test]
fn order_state_stream_normalizes_state_changes() {
    let state = OrderStateStreamResponse {
        payload: Some(OrderStateStreamPayload::OrderState(OrderStateResponse {
            order_id: "o9".to_string(),
        })),
    };
    assert!(matches!(
        StreamResponse::from(state),
        StreamResponse::OrderState(OrderStateResponse { ref order_id }) if order_id == "o9"
    ));
}
