//! The stream supervisor: the reconnect/keepalive/resubscribe state machine
//! behind every long-lived server stream.
//!
//! The machine is pure: a driver task performs the waiting, reopening and
//! queueing, observes one [`StreamEvent`] at a time, and hands each event to
//! [`Supervisor::on_event`], which returns the next batch of
//! [`SupervisorAction`]s to perform. All decisions are made here and are
//! verified; the driver only executes them.
use vstd::prelude::*;
use crate::cache::{apply_request, MarketCache, MarketDataRequest, MarketDataPayload,
    SubscriptionAction, id_views};
use crate::response::{MarketDataResponse, StreamResponse, spec_from_market};

verus! {

/// The supervisor's control state.
#[derive(Clone, Copy, Debug, PartialEq, Eq, Structural)]
pub enum SupervisorState {
    /// The initial streamed call is being opened.
    Connecting,
    /// The stream is live; the driver waits for inbound items, one timeout
    /// window at a time.
    Streaming,
    /// The stream was lost; the driver attempts to reopen it, one timeout
    /// window at a time.
    Reconnecting,
    /// Terminal: entered by explicit stop, by the owning handle being
    /// dropped, or when every sink has closed.
    Stopped,
}

/// One observation the driver makes while running the stream.
#[derive(Clone, Debug)]
pub enum StreamEvent {
    /// An inbound item arrived and was decoded.
    Item(MarketDataResponse),
    /// The server ended the stream cleanly.
    EndOfStream,
    /// The transport failed while receiving.
    TransportError,
    /// The wait for the next item timed out; `outbound_empty` reports
    /// whether the outbound queue was empty at that moment.
    Timeout { outbound_empty: bool },
    /// Forwarding failed because every sink has closed.
    SinkClosed,
    /// An attempt to open (or reopen) the streamed call succeeded.
    Opened,
    /// An attempt to open (or reopen) the streamed call failed with an
    /// explicit error.
    OpenError,
    /// An attempt to open (or reopen) the streamed call timed out.
    OpenTimeout,
    /// The owner asked the session to stop.
    StopRequested,
}

/// One instruction to the driver.
#[derive(Clone, Debug)]
pub enum SupervisorAction {
    /// Hand this normalized event to every registered sink.
    Forward(StreamResponse),
    /// Enqueue one keepalive item on the outbound queue.
    EnqueueKeepalive,
    /// Enqueue keepalive items until the outbound queue is non-empty
    /// (defensive: guards the race where the queue drained exactly as the
    /// disconnect occurred).
    EnsureKeepalive,
    /// Enqueue this replay request, rebuilding server-side subscriptions.
    EnqueueReplay(MarketDataRequest),
    /// Sleep one timeout interval before the next reconnect attempt.
    Sleep,
}

/// The state reached after one event: the pure transition relation of the
/// supervisor, independent of the actions it emits.
pub open spec fn next_state(s: SupervisorState, e: StreamEvent) -> SupervisorState {
    match s {
        SupervisorState::Connecting => match e {
            StreamEvent::Opened => SupervisorState::Streaming,
            StreamEvent::OpenError => SupervisorState::Stopped,
            StreamEvent::OpenTimeout => SupervisorState::Stopped,
            StreamEvent::SinkClosed => SupervisorState::Stopped,
            StreamEvent::StopRequested => SupervisorState::Stopped,
            _ => SupervisorState::Connecting,
        },
        SupervisorState::Streaming => match e {
            StreamEvent::Item(_) => SupervisorState::Streaming,
            StreamEvent::EndOfStream => SupervisorState::Reconnecting,
            StreamEvent::TransportError => SupervisorState::Reconnecting,
            StreamEvent::Timeout { .. } => SupervisorState::Streaming,
            StreamEvent::SinkClosed => SupervisorState::Stopped,
            StreamEvent::StopRequested => SupervisorState::Stopped,
            _ => SupervisorState::Streaming,
        },
        SupervisorState::Reconnecting => match e {
            StreamEvent::Opened => SupervisorState::Streaming,
            StreamEvent::OpenError => SupervisorState::Reconnecting,
            StreamEvent::OpenTimeout => SupervisorState::Reconnecting,
            StreamEvent::SinkClosed => SupervisorState::Stopped,
            StreamEvent::StopRequested => SupervisorState::Stopped,
            _ => SupervisorState::Reconnecting,
        },
        SupervisorState::Stopped => SupervisorState::Stopped,
    }
}

/// Whether `req` is a faithful replay of the desired-subscription set `c`:
/// one subscribe request naming exactly the identifiers in `c`, each once.
pub open spec fn is_replay_of(req: MarketDataRequest, c: Set<Seq<char>>) -> bool {
    match req.payload {
        Some(MarketDataPayload::SubscribeLastPrice(slr)) => {
            &&& slr.subscription_action == SubscriptionAction::Subscribe
            &&& id_views(slr.instruments@) == c
            &&& forall|a: int, b: int|
                0 <= a < b < slr.instruments@.len()
                    ==> (#[trigger] slr.instruments@[a]).instrument_id@
                    != (#[trigger] slr.instruments@[b]).instrument_id@
        },
        _ => false,
    }
}

/// A stream session's decision core: the control state plus the
/// subscription cache it replays from after a reconnect.
pub struct Supervisor {
    pub state: SupervisorState,
    pub cache: MarketCache,
}

impl Supervisor {
    /// The supervisor's invariant: its cache is well formed.
    pub open spec fn wf(self) -> bool {
        self.cache.wf()
    }

    /// A fresh session: about to open the stream, desiring no
    /// subscriptions, with one keepalive seeded onto the outbound queue
    /// (the server sends nothing until it has received one item).
    pub fn new() -> (r: (Supervisor, Vec<SupervisorAction>))
        ensures
            r.0.wf(),
            r.0.state == SupervisorState::Connecting,
            r.0.cache.contents() == Set::<Seq<char>>::empty(),
            r.1@.len() == 1,
            r.1@[0] is EnqueueKeepalive,
    {
        let sup = Supervisor { state: SupervisorState::Connecting, cache: MarketCache::new() };
        let mut acts: Vec<SupervisorAction> = Vec::new();
        acts.push(SupervisorAction::EnqueueKeepalive);
        (sup, acts)
    }

    /// Record one outbound subscription request before it is enqueued: the
    /// cache is updated first, so it is authoritative for replay whatever
    /// the connection state.
    pub fn apply_outbound(&mut self, req: &MarketDataRequest)
        requires
            old(self).wf(),
        ensures
            final(self).wf(),
            final(self).state == old(self).state,
            final(self).cache.contents() == apply_request(old(self).cache.contents(), *req),
    {
        self.cache.process(req);
    }

    /// Advance the machine by one observed event and say what to do next.
    ///
    /// The returned actions are exactly the ones the transition calls for:
    /// an item is forwarded (normalized) and nothing else; a lost stream
    /// tops the outbound queue up with keepalives before the reopen; a
    /// successful reopen enqueues exactly one replay of the cache contents;
    /// a failed reopen sleeps one interval; a timed-out reopen retries at
    /// once; and a stopped session does nothing, ever.
    pub fn on_event(&mut self, event: StreamEvent) -> (acts: Vec<SupervisorAction>)
        requires
            old(self).wf(),
        ensures
            final(self).wf(),
            final(self).cache == old(self).cache,
            final(self).state == next_state(old(self).state, event),
            match (old(self).state, event) {
                (SupervisorState::Stopped, _) => acts@ == Seq::<SupervisorAction>::empty(),
                (SupervisorState::Streaming, StreamEvent::Item(resp)) => acts@.len() == 1
                    && acts@[0] == SupervisorAction::Forward(spec_from_market(resp)),
                (SupervisorState::Streaming, StreamEvent::EndOfStream) => acts@.len() == 1
                    && acts@[0] is EnsureKeepalive,
                (SupervisorState::Streaming, StreamEvent::TransportError) => acts@.len() == 1
                    && acts@[0] is EnsureKeepalive,
                (SupervisorState::Streaming, StreamEvent::Timeout { outbound_empty }) => {
                    if outbound_empty {
                        acts@.len() == 1 && acts@[0] is EnqueueKeepalive
                    } else {
                        acts@ == Seq::<SupervisorAction>::empty()
                    }
                },
                (SupervisorState::Reconnecting, StreamEvent::Opened) => acts@.len() == 1
                    && match acts@[0] {
                        SupervisorAction::EnqueueReplay(req) => is_replay_of(
                            req, old(self).cache.contents()),
                        _ => false,
                    },
                (SupervisorState::Reconnecting, StreamEvent::OpenError) => acts@.len() == 2
                    && acts@[0] is Sleep && acts@[1] is EnsureKeepalive,
                (SupervisorState::Reconnecting, StreamEvent::OpenTimeout) => acts@.len() == 1
                    && acts@[0] is EnsureKeepalive,
                _ => acts@ == Seq::<SupervisorAction>::empty(),
            },
    {
        let mut acts: Vec<SupervisorAction> = Vec::new();
        match self.state {
            SupervisorState::Connecting => {
                match event {
                    StreamEvent::Opened => {
                        self.state = SupervisorState::Streaming;
                    },
                    StreamEvent::OpenError
                    | StreamEvent::OpenTimeout
                    | StreamEvent::SinkClosed
                    | StreamEvent::StopRequested => {
                        self.state = SupervisorState::Stopped;
                    },
                    _ => {},
                }
            },
            SupervisorState::Streaming => {
                match event {
                    StreamEvent::Item(resp) => {
                        acts.push(SupervisorAction::Forward(StreamResponse::from(resp)));
                    },
                    StreamEvent::EndOfStream | StreamEvent::TransportError => {
                        self.state = SupervisorState::Reconnecting;
                        acts.push(SupervisorAction::EnsureKeepalive);
                    },
                    StreamEvent::Timeout { outbound_empty } => {
                        if outbound_empty {
                            acts.push(SupervisorAction::EnqueueKeepalive);
                        }
                    },
                    StreamEvent::SinkClosed | StreamEvent::StopRequested => {
                        self.state = SupervisorState::Stopped;
                    },
                    _ => {},
                }
            },
            SupervisorState::Reconnecting => {
                match event {
                    StreamEvent::Opened => {
                        self.state = SupervisorState::Streaming;
                        let replay = self.cache.market_req();
                        acts.push(SupervisorAction::EnqueueReplay(replay));
                    },
                    StreamEvent::OpenError => {
                        acts.push(SupervisorAction::Sleep);
                        acts.push(SupervisorAction::EnsureKeepalive);
                    },
                    StreamEvent::OpenTimeout => {
                        acts.push(SupervisorAction::EnsureKeepalive);
                    },
                    StreamEvent::SinkClosed | StreamEvent::StopRequested => {
                        self.state = SupervisorState::Stopped;
                    },
                    _ => {},
                }
            },
            SupervisorState::Stopped => {},
        }
        acts
    }
}

/// The state reached after a whole sequence of events.
pub open spec fn run_states(s: SupervisorState, events: Seq<StreamEvent>) -> SupervisorState
    decreases events.len(),
{
    if events.len() == 0 {
        s
    } else {
        run_states(next_state(s, events.first()), events.drop_first())
    }
}

/// Shutdown is final: once a session is stopped, no sequence of further
/// events leaves the stopped state — and, by [`Supervisor::on_event`]'s
/// contract, a stopped session emits no action, so nothing more is ever
/// forwarded to a sink.
pub proof fn lemma_stopped_is_terminal(events: Seq<StreamEvent>)
    ensures
        run_states(SupervisorState::Stopped, events) == SupervisorState::Stopped,
    decreases events.len(),
{
    if events.len() > 0 {
        lemma_stopped_is_terminal(events.drop_first());
    }
}

/// Whether one transition forwards anything to a sink: only a live stream
/// delivering an item does.
pub open spec fn forwards(s: SupervisorState, e: StreamEvent) -> bool {
    s is Streaming && e is Item
}

/// No event reaching a stopped session — first of a sequence or any later
/// one — causes a forward to a sink.
pub proof fn lemma_stopped_never_forwards(events: Seq<StreamEvent>, k: int)
    requires
        0 <= k < events.len(),
    ensures
        !forwards(run_states(SupervisorState::Stopped, events.subrange(0, k)), events[k]),
{
    lemma_stopped_is_terminal(events.subrange(0, k));
}

} // verus!
