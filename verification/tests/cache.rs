use yatis::cache::{LastPriceInstrument, MarketCache, MarketDataPayload, MarketDataRequest,
    SubscribeLastPriceRequest, SubscriptionAction};

fn instrument(id: &str) -> LastPriceInstrument {
    LastPriceInstrument { figi: String::new(), instrument_id: id.to_string() }
}

fn change(action: SubscriptionAction, ids: &[&str]) -> MarketDataRequest {
    MarketDataRequest {
        payload: Some(MarketDataPayload::SubscribeLastPrice(SubscribeLastPriceRequest {
            subscription_action: action,
            instruments: ids.iter().map(|id| instrument(id)).collect(),
        })),
    }
}

fn replay_ids(cache: &MarketCache) -> Vec<String> {
    match cache.market_req().payload {
        Some(MarketDataPayload::SubscribeLastPrice(slr)) => {
            assert_eq!(slr.subscription_action, SubscriptionAction::Subscribe);
            for i in &slr.instruments {
                assert!(i.figi.is_empty());
            }
            slr.instruments.into_iter().map(|i| i.instrument_id).collect()
        }
        other => panic!("replay request must be a last-price subscribe, got {other:?}"),
    }
}

#[test]
fn subscribe_then_unsubscribe_leaves_the_difference() {
    let mut cache = MarketCache::new();
    cache.process(&change(SubscriptionAction::Subscribe, &["A"]));
    cache.process(&change(SubscriptionAction::Subscribe, &["B"]));
    cache.process(&change(SubscriptionAction::Unsubscribe, &["A"]));
    assert!(!cache.contains_id(&"A".to_string()));
    assert!(cache.contains_id(&"B".to_string()));
    assert_eq!(replay_ids(&cache), vec!["B".to_string()]);
}

#[test]
fn empty_cache_replays_an_empty_subscribe() {
    let cache = MarketCache::new();
    assert!(replay_ids(&cache).is_empty());
}

#[test]
fn duplicate_subscribes_are_kept_once() {
    let mut cache = MarketCache::new();
    cache.process(&change(SubscriptionAction::Subscribe, &["A", "A", "B"]));
    cache.process(&change(SubscriptionAction::Subscribe, &["A"]));
    let mut ids = replay_ids(&cache);
    ids.sort();
    assert_eq!(ids, vec!["A".to_string(), "B".to_string()]);
}

#[test]
fn unsubscribing_something_absent_changes_nothing() {
    let mut cache = MarketCache::new();
    cache.process(&change(SubscriptionAction::Subscribe, &["A"]));
    cache.process(&change(SubscriptionAction::Unsubscribe, &["B"]));
    assert_eq!(replay_ids(&cache), vec!["A".to_string()]);
}

#[test]
fn unrelated_requests_leave_the_cache_alone() {
    let mut cache = MarketCache::new();
    cache.process(&change(SubscriptionAction::Subscribe, &["A"]));
    cache.process(&MarketDataRequest::ping());
    cache.process(&MarketDataRequest { payload: None });
    cache.process(&MarketDataRequest { payload: Some(MarketDataPayload::GetMySubscriptions) });
    cache.process(&change(SubscriptionAction::Unspecified, &["B"]));
    assert_eq!(replay_ids(&cache), vec!["A".to_string()]);
}

#[test]
fn add_and_remove_instruments_directly() {
    let mut cache = MarketCache::new();
    cache.add_instruments(&vec![instrument("X"), instrument("Y")]);
    assert!(cache.contains_id(&"X".to_string()));
    cache.remove_instruments(&vec![instrument("X")]);
    assert!(!cache.contains_id(&"X".to_string()));
    assert!(cache.contains_id(&"Y".to_string()));
}
