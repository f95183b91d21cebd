//! The event bridge: the single synchronization primitive of this crate.
//!
//! Native peer-connection engines deliver events through registered callbacks
//! whose calling context the consumer does not control.  The bridge turns
//! that push-style delivery into pull-style polling: `push` appends an event
//! and takes any stored wake handle (for the producer to invoke exactly
//! once), `poll` either pops the head event or registers the poller's wake
//! handle, replacing any previous one.  The queue is unbounded and FIFO.

use std::collections::VecDeque;

use vstd::prelude::*;

use crate::addr::WebrtcAddr;

verus! {

/// The mathematical state of a bridge: the buffered items in arrival order
/// and the wake handle of the most recent poller, if one is registered.
#[verifier::ext_equal]
pub ghost struct BridgeModel<T, W> {
    pub queue: Seq<T>,
    pub waker: Option<W>,
}

/// The state of a freshly created bridge.
pub open spec fn empty_bridge<T, W>() -> BridgeModel<T, W> {
    BridgeModel { queue: Seq::empty(), waker: None }
}

/// What `push` does to the model: the item goes to the tail; any stored wake
/// handle is handed back (to be invoked once) and cleared.
pub open spec fn spec_push<T, W>(m: BridgeModel<T, W>, item: T) -> (BridgeModel<T, W>, Option<
    W,
>) {
    (BridgeModel { queue: m.queue.push(item), waker: None }, m.waker)
}

/// What `poll` does to the model: a non-empty queue yields its head; an empty
/// queue stores the poller's wake handle, replacing any previous one.
pub open spec fn spec_poll<T, W>(m: BridgeModel<T, W>, wake: W) -> (BridgeModel<T, W>, Option<
    T,
>) {
    if m.queue.len() > 0 {
        (BridgeModel { queue: m.queue.drop_first(), waker: m.waker }, Some(m.queue[0]))
    } else {
        (BridgeModel { queue: m.queue, waker: Some(wake) }, None)
    }
}

/// A buffered queue of events of type `T` with a single wake-handle slot of
/// type `W`, used to surface callback-driven events to a polling caller.
pub struct EventBridge<T, W> {
    queue: VecDeque<T>,
    waker: Option<W>,
}

impl<T, W> View for EventBridge<T, W> {
    type V = BridgeModel<T, W>;

    closed spec fn view(&self) -> BridgeModel<T, W> {
        BridgeModel { queue: self.queue@, waker: self.waker }
    }
}

impl<T, W> Default for EventBridge<T, W> {
    /// A bridge with no buffered events and no registered wake handle.
    fn default() -> (bridge: Self)
        ensures
            bridge@ == empty_bridge::<T, W>(),
    {
        EventBridge::new()
    }
}

impl<T, W> EventBridge<T, W> {
    /// A bridge with no buffered events and no registered wake handle.
    pub fn new() -> (bridge: Self)
        ensures
            bridge@ == empty_bridge::<T, W>(),
    {
        let bridge = EventBridge { queue: VecDeque::new(), waker: None };
        proof {
            assert(bridge@ =~= empty_bridge::<T, W>());
        }
        bridge
    }

    /// How many events are buffered.
    pub fn len(&self) -> (n: usize)
        ensures
            n == self@.queue.len(),
    {
        self.queue.len()
    }

    /// Whether a poller's wake handle is currently registered.
    pub fn has_waker(&self) -> (b: bool)
        ensures
            b == (self@.waker is Some),
    {
        self.waker.is_some()
    }

    /// Appends `item` at the tail and takes any stored wake handle.  The
    /// caller must invoke the returned handle; because the slot is cleared
    /// here, the handle is never handed out twice for one registration.
    pub fn push(&mut self, item: T) -> (wake: Option<W>)
        ensures
            final(self)@ == spec_push(old(self)@, item).0,
            wake == spec_push(old(self)@, item).1,
    {
        self.queue.push_back(item);
        let wake = self.waker.take();
        proof {
            assert(final(self)@ =~= spec_push(old(self)@, item).0);
        }
        wake
    }

    /// Takes the registered wake handle, if any, without touching the
    /// queue.  Producers that tear down call this so the last poller still
    /// learns that nothing more will arrive.
    pub fn take_waker(&mut self) -> (wake: Option<W>)
        ensures
            final(self)@ == (BridgeModel { queue: old(self)@.queue, waker: None::<W> }),
            wake == old(self)@.waker,
    {
        let wake = self.waker.take();
        proof {
            assert(final(self)@ =~= (BridgeModel { queue: old(self)@.queue, waker: None::<W> }));
        }
        wake
    }

    /// If an event is buffered, pops and returns the head (the oldest);
    /// otherwise registers `wake`, replacing any previously stored handle,
    /// and reports that nothing is available yet.
    pub fn poll(&mut self, wake: W) -> (item: Option<T>)
        ensures
            final(self)@ == spec_poll(old(self)@, wake).0,
            item == spec_poll(old(self)@, wake).1,
    {
        match self.queue.pop_front() {
            Some(item) => {
                proof {
                    assert(final(self)@.queue =~= spec_poll(old(self)@, wake).0.queue);
                    assert(final(self)@ =~= spec_poll(old(self)@, wake).0);
                }
                Some(item)
            },
            None => {
                self.waker = Some(wake);
                proof {
                    assert(final(self)@ =~= spec_poll(old(self)@, wake).0);
                }
                None
            },
        }
    }
}

/// The bridge a socket's callbacks fill with outgoing local addresses.
pub type AddressFutureInner<W> = EventBridge<WebrtcAddr, W>;

impl<W> EventBridge<WebrtcAddr, W> {
    /// `push` under the name the address bridge's producers use.
    pub fn set_addr(&mut self, addr: WebrtcAddr) -> (wake: Option<W>)
        ensures
            final(self)@ == spec_push(old(self)@, addr).0,
            wake == spec_push(old(self)@, addr).1,
    {
        self.push(addr)
    }
}

/// The model after pushing `items`, in order, onto `m`.
pub open spec fn spec_push_all<T, W>(m: BridgeModel<T, W>, items: Seq<T>) -> BridgeModel<T, W>
    decreases items.len(),
{
    if items.len() == 0 {
        m
    } else {
        spec_push_all(spec_push(m, items[0]).0, items.drop_first())
    }
}

/// The items returned by `n` successive polls on `m`, each registering
/// `wake` when the queue is empty.
pub open spec fn spec_poll_results<T, W>(m: BridgeModel<T, W>, wake: W, n: nat) -> Seq<T>
    decreases n,
{
    if n == 0 {
        Seq::empty()
    } else {
        let stepped = spec_poll(m, wake);
        match stepped.1 {
            Some(item) => seq![item] + spec_poll_results(stepped.0, wake, (n - 1) as nat),
            None => spec_poll_results(stepped.0, wake, (n - 1) as nat),
        }
    }
}

/// Pushes accumulate at the tail: after pushing `items` onto `m`, the queue
/// holds `m`'s events followed by `items`.
pub proof fn lemma_push_all_queue<T, W>(m: BridgeModel<T, W>, items: Seq<T>)
    ensures
        spec_push_all(m, items).queue == m.queue + items,
    decreases items.len(),
{
    if items.len() == 0 {
        assert(m.queue + items =~= m.queue);
    } else {
        lemma_push_all_queue(spec_push(m, items[0]).0, items.drop_first());
        assert(m.queue.push(items[0]) + items.drop_first() =~= m.queue + items);
    }
}

/// Polls drain from the head: `n` successive polls return the first `n`
/// buffered events, in order.
pub proof fn lemma_poll_in_order<T, W>(m: BridgeModel<T, W>, wake: W, n: nat)
    requires
        n <= m.queue.len(),
    ensures
        spec_poll_results(m, wake, n) == m.queue.take(n as int),
    decreases n,
{
    if n == 0 {
        assert(spec_poll_results(m, wake, n) =~= m.queue.take(n as int));
    } else {
        let stepped = spec_poll(m, wake);
        lemma_poll_in_order(stepped.0, wake, (n - 1) as nat);
        assert(seq![m.queue[0]] + m.queue.drop_first().take(n as int - 1) =~= m.queue.take(
            n as int,
        ));
    }
}

/// FIFO law: for any sequence of pushes into a bridge, polling without
/// intervening pushes returns the buffered items in push order.
pub proof fn lemma_bridge_fifo<T, W>(m: BridgeModel<T, W>, items: Seq<T>, wake: W, n: nat)
    requires
        n <= m.queue.len() + items.len(),
    ensures
        spec_poll_results(spec_push_all(m, items), wake, n) == (m.queue + items).take(n as int),
{
    lemma_push_all_queue(m, items);
    lemma_poll_in_order(spec_push_all(m, items), wake, n);
}

/// Single-wake law: a handle registered by a poll on an empty queue is handed
/// out by the next push, is cleared by that push, and is never handed out for
/// a second push.
pub proof fn lemma_wake_handle_once<T, W>(m: BridgeModel<T, W>, wake: W, first: T, second: T)
    requires
        m.queue.len() == 0,
    ensures
        ({
            let registered = spec_poll(m, wake).0;
            let first_push = spec_push(registered, first);
            let second_push = spec_push(first_push.0, second);
            &&& first_push.1 == Some(wake)
            &&& first_push.0.waker is None
            &&& second_push.1 is None
        }),
{
}

} // verus!
