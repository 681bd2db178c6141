//! The subscription cache: the set of instrument identifiers currently
//! desired as subscribed on the market-data stream, independent of live
//! connection state. It is mutated only by applying outbound subscription
//! requests, and read only to build the replay request after a reconnect.
use vstd::prelude::*;

verus! {

/// Whether a subscription request adds or removes instruments.
#[derive(Clone, Copy, Debug, PartialEq, Eq, Structural)]
pub enum SubscriptionAction {
    Unspecified,
    Subscribe,
    Unsubscribe,
}

/// One instrument named by a last-price subscription change.
#[derive(Clone, Debug)]
pub struct LastPriceInstrument {
    pub figi: String,
    pub instrument_id: String,
}

/// A request to change the set of last-price subscriptions.
#[derive(Clone, Debug)]
pub struct SubscribeLastPriceRequest {
    pub subscription_action: SubscriptionAction,
    pub instruments: Vec<LastPriceInstrument>,
}

/// Payload of an outbound market-data stream request. Only the last-price
/// subscription payload carries data the cache consults; the other request
/// kinds pass through it untouched.
#[derive(Clone, Debug)]
pub enum MarketDataPayload {
    SubscribeCandles,
    SubscribeOrderBook,
    SubscribeTrades,
    SubscribeInfo,
    SubscribeLastPrice(SubscribeLastPriceRequest),
    GetMySubscriptions,
    Ping,
    PingSettings,
}

/// An outbound market-data stream request: an optional payload.
#[derive(Clone, Debug)]
pub struct MarketDataRequest {
    pub payload: Option<MarketDataPayload>,
}

impl MarketDataRequest {
    /// The keepalive item that seeds and refreshes the outbound queue.
    pub fn ping() -> (r: MarketDataRequest)
        ensures
            r.payload == Some(MarketDataPayload::Ping),
    {
        MarketDataRequest { payload: Some(MarketDataPayload::Ping) }
    }
}

/// The set of instrument identifiers named by a list of instruments.
pub open spec fn id_views(inst: Seq<LastPriceInstrument>) -> Set<Seq<char>> {
    Set::new(|id: Seq<char>| exists|k: int| 0 <= k < inst.len() && inst[k].instrument_id@ == id)
}

/// What applying one outbound request does to the desired-subscription set:
/// a last-price subscribe adds its instruments, a last-price unsubscribe
/// removes them, and every other request leaves the set alone.
pub open spec fn apply_request(c: Set<Seq<char>>, req: MarketDataRequest) -> Set<Seq<char>> {
    match req.payload {
        Some(MarketDataPayload::SubscribeLastPrice(r)) => match r.subscription_action {
            SubscriptionAction::Subscribe => c.union(id_views(r.instruments@)),
            SubscriptionAction::Unsubscribe => c.difference(id_views(r.instruments@)),
            SubscriptionAction::Unspecified => c,
        },
        _ => c,
    }
}

/// The desired last-price subscriptions, stored without duplicates.
#[derive(Clone, Debug)]
pub struct MarketCache {
    lastprice: Vec<String>,
}

impl MarketCache {
    /// The set of instrument identifiers currently desired as subscribed.
    pub closed spec fn contents(self) -> Set<Seq<char>> {
        Set::new(
            |id: Seq<char>| exists|k: int|
                0 <= k < self.lastprice@.len() && self.lastprice@[k]@ == id,
        )
    }

    /// Internal invariant: no instrument identifier is stored twice.
    pub closed spec fn wf(self) -> bool {
        forall|i: int, j: int|
            0 <= i < j < self.lastprice@.len() ==> self.lastprice@[i]@ != self.lastprice@[j]@
    }

    /// An empty cache: nothing is desired.
    pub fn new() -> (r: MarketCache)
        ensures
            r.wf(),
            r.contents() == Set::<Seq<char>>::empty(),
    {
        let r = MarketCache { lastprice: Vec::new() };
        proof {
            assert(r.contents() =~= Set::<Seq<char>>::empty());
        }
        r
    }

    /// Whether an instrument identifier is currently desired.
    pub fn contains_id(&self, id: &String) -> (r: bool)
        ensures
            r == self.contents().contains(id@),
    {
        let mut j: usize = 0;
        while j < self.lastprice.len()
            invariant
                0 <= j <= self.lastprice@.len(),
                forall|t: int| 0 <= t < j ==> self.lastprice@[t]@ != id@,
            decreases self.lastprice@.len() - j,
        {
            if self.lastprice[j].eq(id) {
                return true;
            }
            j += 1;
        }
        false
    }

    /// Add every named instrument to the desired set.
    pub fn add_instruments(&mut self, inst: &Vec<LastPriceInstrument>)
        requires
            old(self).wf(),
        ensures
            final(self).wf(),
            final(self).contents() == old(self).contents().union(id_views(inst@)),
    {
        let mut k: usize = 0;
        while k < inst.len()
            invariant
                0 <= k <= inst@.len(),
                self.wf(),
                self.contents() == old(self).contents().union(
                    id_views(inst@.subrange(0, k as int))),
            decreases inst@.len() - k,
        {
            let id = &inst[k].instrument_id;
            let ghost pre = self.contents();
            let ghost preseq = self.lastprice@;
            if !self.contains_id(id) {
                self.lastprice.push(id.clone());
                proof {
                    assert forall|x: Seq<char>| self.contents().contains(x)
                        implies pre.insert(id@).contains(x) by {
                        let t = choose|t: int|
                            0 <= t < self.lastprice@.len() && self.lastprice@[t]@ == x;
                        if t < self.lastprice@.len() - 1 {
                            assert(pre.contains(x));
                        } else {
                            assert(self.lastprice@[self.lastprice@.len() - 1]@ == id@);
                        }
                    }
                    assert forall|x: Seq<char>| pre.insert(id@).contains(x)
                        implies self.contents().contains(x) by {
                        if x == id@ {
                            assert(self.lastprice@[self.lastprice@.len() - 1]@ == x);
                        } else {
                            let t = choose|t: int|
                                0 <= t < preseq.len() && preseq[t]@ == x;
                            assert(self.lastprice@[t]@ == x);
                        }
                    }
                    assert(self.contents() =~= pre.insert(id@));
                }
            }
            proof {
                assert(id_views(inst@.subrange(0, k + 1 as int)) =~= id_views(
                    inst@.subrange(0, k as int)).insert(inst@[k as int].instrument_id@)) by {
                    let pre_ids = inst@.subrange(0, k as int);
                    let post_ids = inst@.subrange(0, k + 1 as int);
                    assert(post_ids[k as int] == inst@[k as int]);
                    assert forall|x: Seq<char>| id_views(pre_ids).contains(x)
                        implies id_views(post_ids).contains(x) by {
                        let t = choose|t: int|
                            0 <= t < pre_ids.len() && pre_ids[t].instrument_id@ == x;
                        assert(post_ids[t].instrument_id@ == x);
                    }
                    assert forall|x: Seq<char>| id_views(post_ids).contains(x)
                        && x != inst@[k as int].instrument_id@
                        implies id_views(pre_ids).contains(x) by {
                        let t = choose|t: int|
                            0 <= t < post_ids.len() && post_ids[t].instrument_id@ == x;
                        assert(pre_ids[t].instrument_id@ == x);
                    }
                }
                assert(self.contents() =~= old(self).contents().union(
                    id_views(inst@.subrange(0, k + 1 as int))));
            }
            k += 1;
        }
        proof {
            assert(inst@.subrange(0, inst@.len() as int) =~= inst@);
        }
    }

    /// Remove one instrument identifier from the desired set.
    fn remove_id(&mut self, id: &String)
        requires
            old(self).wf(),
        ensures
            final(self).wf(),
            final(self).contents() == old(self).contents().remove(id@),
    {
        let mut j: usize = 0;
        while j < self.lastprice.len()
            invariant
                0 <= j <= self.lastprice@.len(),
                self.wf(),
                *self == *old(self),
                forall|t: int| 0 <= t < j ==> self.lastprice@[t]@ != id@,
            decreases self.lastprice@.len() - j,
        {
            if self.lastprice[j].eq(id) {
                let ghost pre = self.lastprice@;
                self.lastprice.remove(j);
                proof {
                    assert forall|x: Seq<char>| old(self).contents().remove(id@).contains(x)
                        implies self.contents().contains(x) by {
                        let t = choose|t: int| 0 <= t < pre.len() && pre[t]@ == x;
                        if t < j {
                            assert(self.lastprice@[t]@ == x);
                        } else {
                            assert(t > j);
                            assert(self.lastprice@[t - 1]@ == x);
                        }
                    }
                    assert forall|x: Seq<char>| self.contents().contains(x)
                        implies old(self).contents().remove(id@).contains(x) by {
                        let t = choose|t: int|
                            0 <= t < self.lastprice@.len() && self.lastprice@[t]@ == x;
                        if t < j {
                            assert(pre[t]@ == x);
                        } else {
                            assert(pre[t + 1]@ == x);
                        }
                    }
                    assert(self.contents() =~= old(self).contents().remove(id@));
                }
                return;
            }
            j += 1;
        }
        proof {
            assert(!old(self).contents().contains(id@));
            assert(self.contents() =~= old(self).contents().remove(id@));
        }
    }

    /// Remove every named instrument from the desired set.
    pub fn remove_instruments(&mut self, inst: &Vec<LastPriceInstrument>)
        requires
            old(self).wf(),
        ensures
            final(self).wf(),
            final(self).contents() == old(self).contents().difference(id_views(inst@)),
    {
        let mut k: usize = 0;
        while k < inst.len()
            invariant
                0 <= k <= inst@.len(),
                self.wf(),
                self.contents() == old(self).contents().difference(
                    id_views(inst@.subrange(0, k as int))),
            decreases inst@.len() - k,
        {
            self.remove_id(&inst[k].instrument_id);
            proof {
                assert(id_views(inst@.subrange(0, k + 1 as int)) =~= id_views(
                    inst@.subrange(0, k as int)).insert(inst@[k as int].instrument_id@)) by {
                    let pre_ids = inst@.subrange(0, k as int);
                    let post_ids = inst@.subrange(0, k + 1 as int);
                    assert(post_ids[k as int] == inst@[k as int]);
                    assert forall|x: Seq<char>| id_views(pre_ids).contains(x)
                        implies id_views(post_ids).contains(x) by {
                        let t = choose|t: int|
                            0 <= t < pre_ids.len() && pre_ids[t].instrument_id@ == x;
                        assert(post_ids[t].instrument_id@ == x);
                    }
                    assert forall|x: Seq<char>| id_views(post_ids).contains(x)
                        && x != inst@[k as int].instrument_id@
                        implies id_views(pre_ids).contains(x) by {
                        let t = choose|t: int|
                            0 <= t < post_ids.len() && post_ids[t].instrument_id@ == x;
                        assert(pre_ids[t].instrument_id@ == x);
                    }
                }
                assert(self.contents() =~= old(self).contents().difference(
                    id_views(inst@.subrange(0, k + 1 as int))));
            }
            k += 1;
        }
        proof {
            assert(inst@.subrange(0, inst@.len() as int) =~= inst@);
        }
    }

    /// Apply one outbound request to the desired set; see [`apply_request`].
    pub fn process(&mut self, req: &MarketDataRequest)
        requires
            old(self).wf(),
        ensures
            final(self).wf(),
            final(self).contents() == apply_request(old(self).contents(), *req),
    {
        match &req.payload {
            Some(MarketDataPayload::SubscribeLastPrice(r)) => match r.subscription_action {
                SubscriptionAction::Subscribe => self.add_instruments(&r.instruments),
                SubscriptionAction::Unsubscribe => self.remove_instruments(&r.instruments),
                SubscriptionAction::Unspecified => {},
            },
            _ => {},
        }
    }

    /// The single replay request that restores the server-side subscription
    /// state after a reconnect: one subscribe request naming exactly the
    /// cached instrument identifiers, each once.
    pub fn market_req(&self) -> (r: MarketDataRequest)
        ensures
            match r.payload {
                Some(MarketDataPayload::SubscribeLastPrice(slr)) => {
                    &&& slr.subscription_action == SubscriptionAction::Subscribe
                    &&& id_views(slr.instruments@) == self.contents()
                    &&& forall|t: int| 0 <= t < slr.instruments@.len()
                        ==> (#[trigger] slr.instruments@[t]).figi@ == Seq::<char>::empty()
                    &&& self.wf() ==> forall|a: int, b: int|
                        0 <= a < b < slr.instruments@.len()
                            ==> (#[trigger] slr.instruments@[a]).instrument_id@
                            != (#[trigger] slr.instruments@[b]).instrument_id@
                },
                _ => false,
            },
    {
        let mut instruments: Vec<LastPriceInstrument> = Vec::new();
        let mut k: usize = 0;
        while k < self.lastprice.len()
            invariant
                0 <= k <= self.lastprice@.len(),
                instruments@.len() == k,
                forall|t: int| 0 <= t < k ==> (#[trigger] instruments@[t]).instrument_id@
                    == self.lastprice@[t]@,
                forall|t: int| 0 <= t < k ==> (#[trigger] instruments@[t]).figi@
                    == Seq::<char>::empty(),
            decreases self.lastprice@.len() - k,
        {
            instruments.push(
                LastPriceInstrument {
                    figi: String::new(),
                    instrument_id: self.lastprice[k].clone(),
                },
            );
            k += 1;
        }
        proof {
            assert(id_views(instruments@) =~= self.contents()) by {
                assert forall|x: Seq<char>| id_views(instruments@).contains(x)
                    implies self.contents().contains(x) by {
                    let t = choose|t: int|
                        0 <= t < instruments@.len() && instruments@[t].instrument_id@ == x;
                    assert(self.lastprice@[t]@ == x);
                }
                assert forall|x: Seq<char>| self.contents().contains(x)
                    implies id_views(instruments@).contains(x) by {
                    let t = choose|t: int|
                        0 <= t < self.lastprice@.len() && self.lastprice@[t]@ == x;
                    assert(instruments@[t].instrument_id@ == x);
                }
            }
        }
        MarketDataRequest {
            payload: Some(
                MarketDataPayload::SubscribeLastPrice(
                    SubscribeLastPriceRequest {
                        subscription_action: SubscriptionAction::Subscribe,
                        instruments,
                    },
                ),
            ),
        }
    }
}

} // verus!
