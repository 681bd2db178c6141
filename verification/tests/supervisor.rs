use yatis::cache::{LastPriceInstrument, MarketDataPayload, MarketDataRequest,
    SubscribeLastPriceRequest, SubscriptionAction};
use yatis::response::{LastPrice, MarketDataResponse, MarketDataResponsePayload, StreamResponse};
use yatis::supervisor::{StreamEvent, Supervisor, SupervisorAction, SupervisorState};

fn subscribe(ids: &[&str]) -> MarketDataRequest {
    MarketDataRequest {
        payload: Some(MarketDataPayload::SubscribeLastPrice(SubscribeLastPriceRequest {
            subscription_action: SubscriptionAction::Subscribe,
            instruments: ids
                .iter()
                .map(|id| LastPriceInstrument {
                    figi: String::new(),
                    instrument_id: id.to_string(),
                })
                .collect(),
        })),
    }
}

fn price_tick(uid: &str) -> MarketDataResponse {
    MarketDataResponse {
        payload: Some(MarketDataResponsePayload::LastPrice(LastPrice {
            instrument_uid: uid.to_string(),
            price: None,
        })),
    }
}

fn forwarded_uid(act: &SupervisorAction) -> String {
    match act {
        SupervisorAction::Forward(StreamResponse::LastPrice(lp)) => lp.instrument_uid.clone(),
        other => panic!("expected a forwarded price tick, got {other:?}"),
    }
}

/// A simulated transport that disconnects right after delivering one
/// message and then accepts reopening: the supervisor detects the loss,
/// reopens, replays exactly the cached subscriptions, resumes forwarding,
/// and never redelivers the earlier message.
#[test]
fn reconnect_replays_cache_and_never_redelivers() {
    let (mut sup, seed) = Supervisor::new();
    assert_eq!(sup.state, SupervisorState::Connecting);
    assert!(matches!(seed[..], [SupervisorAction::EnqueueKeepalive]));

    let acts = sup.on_event(StreamEvent::Opened);
    assert_eq!(sup.state, SupervisorState::Streaming);
    assert!(acts.is_empty());

    // the caller subscribes to one instrument; the cache records it first
    sup.apply_outbound(&subscribe(&["B"]));

    // message M arrives and is forwarded once
    let acts = sup.on_event(StreamEvent::Item(price_tick("M")));
    assert_eq!(acts.len(), 1);
    assert_eq!(forwarded_uid(&acts[0]), "M");

    // the transport drops: detected within one timeout window
    let acts = sup.on_event(StreamEvent::TransportError);
    assert_eq!(sup.state, SupervisorState::Reconnecting);
    assert!(matches!(acts[..], [SupervisorAction::EnsureKeepalive]));

    // reopening succeeds: exactly one replay of the cache as of reconnect
    let acts = sup.on_event(StreamEvent::Opened);
    assert_eq!(sup.state, SupervisorState::Streaming);
    assert_eq!(acts.len(), 1);
    match &acts[0] {
        SupervisorAction::EnqueueReplay(req) => match &req.payload {
            Some(MarketDataPayload::SubscribeLastPrice(slr)) => {
                assert_eq!(slr.subscription_action, SubscriptionAction::Subscribe);
                let ids: Vec<&str> =
                    slr.instruments.iter().map(|i| i.instrument_id.as_str()).collect();
                assert_eq!(ids, ["B"]);
            }
            other => panic!("replay must be a last-price subscribe, got {other:?}"),
        },
        other => panic!("expected the replay action, got {other:?}"),
    }

    // forwarding resumes with the next message; M itself never reappears
    let acts = sup.on_event(StreamEvent::Item(price_tick("M2")));
    assert_eq!(acts.len(), 1);
    assert_eq!(forwarded_uid(&acts[0]), "M2");
}

#[test]
fn reopen_failure_sleeps_and_timeout_retries_at_once() {
    let (mut sup, _) = Supervisor::new();
    sup.on_event(StreamEvent::Opened);
    sup.on_event(StreamEvent::EndOfStream);
    assert_eq!(sup.state, SupervisorState::Reconnecting);

    let acts = sup.on_event(StreamEvent::OpenError);
    assert_eq!(sup.state, SupervisorState::Reconnecting);
    assert!(matches!(
        acts[..],
        [SupervisorAction::Sleep, SupervisorAction::EnsureKeepalive]
    ));

    let acts = sup.on_event(StreamEvent::OpenTimeout);
    assert_eq!(sup.state, SupervisorState::Reconnecting);
    assert!(matches!(acts[..], [SupervisorAction::EnsureKeepalive]));
}

#[test]
fn idle_timeout_pings_only_an_empty_queue() {
    let (mut sup, _) = Supervisor::new();
    sup.on_event(StreamEvent::Opened);

    let acts = sup.on_event(StreamEvent::Timeout { outbound_empty: true });
    assert!(matches!(acts[..], [SupervisorAction::EnqueueKeepalive]));
    assert_eq!(sup.state, SupervisorState::Streaming);

    let acts = sup.on_event(StreamEvent::Timeout { outbound_empty: false });
    assert!(acts.is_empty());
    assert_eq!(sup.state, SupervisorState::Streaming);
}

#[test]
fn sink_closure_is_fatal_for_the_stream() {
    let (mut sup, _) = Supervisor::new();
    sup.on_event(StreamEvent::Opened);
    let acts = sup.on_event(StreamEvent::SinkClosed);
    assert!(acts.is_empty());
    assert_eq!(sup.state, SupervisorState::Stopped);
}

/// After stop, no further event produces any action: nothing more can
/// reach a sink.
#[test]
fn stopped_session_emits_nothing() {
    let (mut sup, _) = Supervisor::new();
    sup.on_event(StreamEvent::Opened);
    sup.on_event(StreamEvent::StopRequested);
    assert_eq!(sup.state, SupervisorState::Stopped);

    let later = [
        StreamEvent::Item(price_tick("late")),
        StreamEvent::TransportError,
        StreamEvent::Opened,
        StreamEvent::Timeout { outbound_empty: true },
        StreamEvent::EndOfStream,
    ];
    for e in later {
        let acts = sup.on_event(e);
        assert!(acts.is_empty());
        assert_eq!(sup.state, SupervisorState::Stopped);
    }
}

#[test]
fn connect_failure_is_terminal() {
    let (mut sup, _) = Supervisor::new();
    let acts = sup.on_event(StreamEvent::OpenError);
    assert!(acts.is_empty());
    assert_eq!(sup.state, SupervisorState::Stopped);
}
