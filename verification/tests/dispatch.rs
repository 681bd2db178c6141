use yatis::dispatch::{production_endpoint, sandbox_endpoint, sandbox_service_of, service_of,
    ServiceGroup, UnaryMethod};
use yatis::stream::{delay_ms, OrderStateStreamRequest, PingDelayMs, PingDelaySettings,
    PortfolioStreamRequest, TradesStreamRequest};

#[test]
fn production_routing_by_group() {
    assert_eq!(service_of(UnaryMethod::ShareBy), ServiceGroup::Instruments);
    assert_eq!(service_of(UnaryMethod::GetCandles), ServiceGroup::MarketData);
    assert_eq!(service_of(UnaryMethod::GetPortfolio), ServiceGroup::Operations);
    assert_eq!(service_of(UnaryMethod::PostOrder), ServiceGroup::Orders);
    assert_eq!(service_of(UnaryMethod::GetSignals), ServiceGroup::Signals);
    assert_eq!(service_of(UnaryMethod::PostStopOrder), ServiceGroup::StopOrders);
    assert_eq!(service_of(UnaryMethod::GetAccounts), ServiceGroup::Users);
    assert_eq!(service_of(UnaryMethod::SandboxPayIn), ServiceGroup::Sandbox);
}

#[test]
fn sandbox_redirects_mutation_and_account_state() {
    assert_eq!(sandbox_service_of(UnaryMethod::GetPortfolio), ServiceGroup::Sandbox);
    assert_eq!(sandbox_service_of(UnaryMethod::PostOrder), ServiceGroup::Sandbox);
    assert_eq!(sandbox_service_of(UnaryMethod::CancelOrder), ServiceGroup::Sandbox);
    assert_eq!(sandbox_service_of(UnaryMethod::GetAccounts), ServiceGroup::Sandbox);
    assert_eq!(sandbox_service_of(UnaryMethod::GetOperations), ServiceGroup::Sandbox);
}

#[test]
fn sandbox_shares_read_only_methods_with_production() {
    assert_eq!(sandbox_service_of(UnaryMethod::ShareBy), ServiceGroup::Instruments);
    assert_eq!(sandbox_service_of(UnaryMethod::GetCandles), ServiceGroup::MarketData);
    assert_eq!(sandbox_service_of(UnaryMethod::GetInfo), ServiceGroup::Users);
    assert_eq!(sandbox_service_of(UnaryMethod::GetOrderPrice), ServiceGroup::Orders);
    assert_eq!(sandbox_service_of(UnaryMethod::PostOrderAsync), ServiceGroup::Orders);
    assert_eq!(
        sandbox_service_of(UnaryMethod::GetDividendsForeignIssuer),
        ServiceGroup::Operations
    );
}

#[test]
fn endpoints_differ_per_variant() {
    assert_eq!(production_endpoint(), "https://invest-public-api.tinkoff.ru");
    assert_eq!(sandbox_endpoint(), "https://sandbox-invest-public-api.tinkoff.ru");
    assert_ne!(production_endpoint(), sandbox_endpoint());
}

#[test]
fn wait_window_adds_network_allowance() {
    assert_eq!(delay_ms(Some(7000)), 9000);
    assert_eq!(delay_ms(Some(0)), 2000);
    assert_eq!(delay_ms(None), 7000);
}

#[test]
fn requests_surface_their_ping_interval() {
    let t = TradesStreamRequest { accounts: vec![], ping_delay_ms: Some(7000) };
    assert_eq!(t.invoke(), Some(7000));

    let o = OrderStateStreamRequest { accounts: vec![], ping_delay_millis: None };
    assert_eq!(o.invoke(), None);

    let p = PortfolioStreamRequest {
        accounts: vec![],
        ping_settings: Some(PingDelaySettings { ping_delay_ms: Some(5000) }),
    };
    assert_eq!(p.invoke(), Some(5000));

    let p = PortfolioStreamRequest { accounts: vec![], ping_settings: None };
    assert_eq!(p.invoke(), None);
}
