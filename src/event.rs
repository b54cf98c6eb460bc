//! Delivery of native mutation events to a subscribing host process.
//!
//! yrs fires a subscription's callback on whichever thread commits a
//! transaction. The callback hands the event to the subscription's
//! [`EventBridge`], which decides whether a message goes out and stamps it;
//! the host side then sends it without waiting. Once unsubscribed, a bridge
//! lets nothing through, even for a callback already under way.
use vstd::prelude::*;

verus! {

/// One step of the path from a document root to a nested shared type.
#[derive(Clone, Debug, PartialEq, Eq)]
pub enum PathSegment {
    /// The key of an entry of a map.
    Key(String),
    /// The index of an item of an array or XML element.
    Index(u32),
}

/// Which notification a message carries.
#[derive(Clone, Copy, Debug, PartialEq, Eq, Structural)]
pub enum EventKind {
    UpdateV1,
    UpdateV2,
    Subdocs,
    Observe,
    ObserveDeep,
    AwarenessUpdate,
    AwarenessChange,
    ItemAdded,
    ItemPopped,
}

/// A message for the subscribing process.
#[derive(Clone, Debug)]
pub struct EventMessage<P> {
    pub kind: EventKind,
    /// Identifies the subscription the message belongs to.
    pub correlation: u64,
    /// Position of the message among those of its subscription: 0, 1, 2, ...
    pub sequence: u64,
    pub payload: P,
    /// The origin attached to the transaction that caused the event.
    pub origin: Option<Vec<u8>>,
}

/// The delivery state of one subscription.
pub struct EventBridge {
    kind: EventKind,
    correlation: u64,
    active: bool,
    sent: u64,
}

/// What an [`EventBridge`] holds.
pub struct BridgeView {
    pub kind: EventKind,
    pub correlation: u64,
    pub active: bool,
    pub sent: nat,
}

impl View for EventBridge {
    type V = BridgeView;

    closed spec fn view(&self) -> BridgeView {
        BridgeView { kind: self.kind, correlation: self.correlation, active: self.active, sent: self.sent as nat }
    }
}

/// The state after one more event: a message goes out while subscribed.
pub open spec fn after_event(s: BridgeView) -> BridgeView {
    if s.active {
        BridgeView { sent: s.sent + 1, ..s }
    } else {
        s
    }
}

/// The state after unsubscribing.
pub open spec fn after_unsubscribe(s: BridgeView) -> BridgeView {
    BridgeView { active: false, ..s }
}

/// The state after `n` events.
pub open spec fn after_events(s: BridgeView, n: nat) -> BridgeView
    decreases n,
{
    if n == 0 {
        s
    } else {
        after_events(after_event(s), (n - 1) as nat)
    }
}

/// The sequence numbers of the messages that `n` events produce from state `s`.
pub open spec fn deliveries(s: BridgeView, n: nat) -> Seq<nat>
    decreases n,
{
    if n == 0 {
        Seq::empty()
    } else {
        let first: Seq<nat> = if s.active { seq![s.sent] } else { Seq::empty() };
        first + deliveries(after_event(s), (n - 1) as nat)
    }
}

impl EventBridge {
    /// The bridge of a new subscription, delivering `kind` messages under
    /// `correlation`.
    pub fn new(kind: EventKind, correlation: u64) -> (r: EventBridge)
        ensures
            r@ == (BridgeView { kind, correlation, active: true, sent: 0 }),
    {
        EventBridge { kind, correlation, active: true, sent: 0 }
    }

    /// Whether messages still go out.
    pub fn is_subscribed(&self) -> (r: bool)
        ensures
            r == self@.active,
    {
        self.active
    }

    /// The number of messages sent so far.
    pub fn sent(&self) -> (r: u64)
        ensures
            r as nat == self@.sent,
    {
        self.sent
    }

    /// Handles one fired event: while subscribed, exactly one message, the
    /// next in sequence, carrying `payload` and `origin`; after that, none.
    pub fn dispatch<P>(&mut self, payload: P, origin: Option<Vec<u8>>) -> (r: Option<EventMessage<P>>)
        requires
            old(self)@.sent < u64::MAX,
        ensures
            final(self)@ == after_event(old(self)@),
            old(self)@.active ==> (r matches Some(m) && m.kind == old(self)@.kind
                && m.correlation == old(self)@.correlation && m.sequence == old(self)@.sent
                && m.payload == payload && m.origin == origin),
            !old(self)@.active ==> r is None,
    {
        if self.active {
            let sequence = self.sent;
            self.sent = self.sent + 1;
            Some(EventMessage { kind: self.kind, correlation: self.correlation, sequence, payload, origin })
        } else {
            None
        }
    }

    /// Stops delivery; unsubscribing again does nothing.
    pub fn unsubscribe(&mut self)
        ensures
            final(self)@ == after_unsubscribe(old(self)@),
    {
        self.active = false;
    }
}

/// While subscribed, `n` events give exactly `n` messages, numbered in the
/// order of the events.
pub proof fn lemma_ordered_delivery(s: BridgeView, n: nat)
    requires
        s.active,
    ensures
        deliveries(s, n).len() == n,
        forall|i: int| 0 <= i < n ==> #[trigger] deliveries(s, n)[i] == s.sent + i,
    decreases n,
{
    if n > 0 {
        let t = after_event(s);
        lemma_ordered_delivery(t, (n - 1) as nat);
        let d = deliveries(s, n);
        assert(d == seq![s.sent] + deliveries(t, (n - 1) as nat));
        assert forall|i: int| 0 <= i < n implies #[trigger] d[i] == s.sent + i by {
            if i > 0 {
                assert(d[i] == deliveries(t, (n - 1) as nat)[i - 1]);
            }
        }
    }
}

/// After unsubscribing, no event gives a message.
pub proof fn lemma_silent_after_unsubscribe(s: BridgeView, n: nat)
    ensures
        deliveries(after_unsubscribe(s), n) == Seq::<nat>::empty(),
    decreases n,
{
    if n > 0 {
        let u = after_unsubscribe(s);
        assert(after_event(u) == u);
        assert(after_unsubscribe(u) == u);
        lemma_silent_after_unsubscribe(u, (n - 1) as nat);
        assert(deliveries(u, n) =~= Seq::<nat>::empty());
    }
}

/// A new subscription that sees `n` events, is then cancelled and sees `m`
/// more, sends exactly `n` messages, numbered `0` to `n - 1` in the order of
/// the events, and none after the cancellation.
pub proof fn lemma_subscription_delivery(kind: EventKind, correlation: u64, n: nat, m: nat)
    ensures
        ({
            let s = BridgeView { kind, correlation, active: true, sent: 0 };
            &&& deliveries(s, n).len() == n
            &&& forall|i: int| 0 <= i < n ==> #[trigger] deliveries(s, n)[i] == i
            &&& deliveries(after_unsubscribe(after_events(s, n)), m) == Seq::<nat>::empty()
        }),
{
    let s = BridgeView { kind, correlation, active: true, sent: 0 };
    lemma_ordered_delivery(s, n);
    lemma_silent_after_unsubscribe(after_events(s, n), m);
}

} // verus!
