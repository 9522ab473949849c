//! Decisions of the in-process outbox relay.
//!
//! A pass over one source reads the unpublished events in `id` order and hands each to a
//! consumer. Delivery is at-least-once and ordered: a transient failure ends the pass over
//! that source, so nothing after the failed event is published before it; an event that has
//! failed [`MAX_DISPATCH_ATTEMPTS`] times is dead-lettered (published with its last error
//! kept) so that one poisoned event cannot block its queue for ever. The I/O (reading the
//! outbox, dispatching, recording failures, marking events published, sleeping) is done by
//! the caller; this module decides what happens after each outcome.

use vstd::prelude::*;

use crate::shared::DomainEvent;

verus! {

/// How many failed deliveries an event may have before it is dead-lettered.
pub const MAX_DISPATCH_ATTEMPTS: i64 = 10;

/// A consumer's refusal of an event, with its message. Returning it means "do not mark the
/// event published; try again later".
#[derive(Debug, Clone)]
pub struct DispatchError(pub String);

impl DispatchError {
    /// The error's text as recorded in the outbox (`dispatch error: <message>`).
    pub fn message(&self) -> (r: String)
        ensures
            r@ == "dispatch error: "@ + self.0@,
    {
        let mut r = "dispatch error: ".to_string();
        r.append(self.0.as_str());
        r
    }
}

/// The default consumer: accepts every event (the process only logs it).
#[derive(Debug, Clone, Copy)]
pub struct LoggingDispatcher;

impl LoggingDispatcher {
    pub fn dispatch(&self, source: &str, event: &DomainEvent) -> (r: Result<(), DispatchError>)
        ensures
            r is Ok,
    {
        Ok(())
    }
}

/// What became of one dispatch attempt. `Failed` carries the event's number of failed
/// attempts after this one was recorded.
#[derive(Debug, Clone, Copy, PartialEq, Eq, Structural)]
pub enum Delivery {
    Delivered,
    Failed { attempts: i64 },
}

/// What the caller does next, after an outcome.
#[derive(Debug, Clone, Copy, PartialEq, Eq, Structural)]
pub enum PassAction {
    /// Go on with the next event of the source.
    Continue,
    /// Mark this event published (keeping its last error), then go on with the next one.
    DeadLetter,
    /// Stop the pass over this source; the event is retried on the next pass.
    Halt,
}

/// A failure that is retried later rather than dead-lettered.
pub open spec fn is_transient(d: Delivery) -> bool {
    d matches Delivery::Failed { attempts } && attempts < MAX_DISPATCH_ATTEMPTS
}

/// A failure after which the event is dead-lettered.
pub open spec fn is_poisoned(d: Delivery) -> bool {
    d matches Delivery::Failed { attempts } && attempts >= MAX_DISPATCH_ATTEMPTS
}

/// The action that follows an outcome.
pub open spec fn action_of(d: Delivery) -> PassAction {
    if is_transient(d) {
        PassAction::Halt
    } else if is_poisoned(d) {
        PassAction::DeadLetter
    } else {
        PassAction::Continue
    }
}

/// The state of a pass over one source: the events delivered so far, the events
/// dead-lettered so far (each in the order seen), whether the pass has stopped, and how many
/// of the source's events have been dispatched.
pub struct PassView {
    pub delivered: Seq<i64>,
    pub dead_lettered: Seq<i64>,
    pub halted: bool,
    pub seen: nat,
}

/// One step of a pass: the state after event `id` had outcome `d`. A stopped pass takes no
/// more steps.
pub open spec fn step(v: PassView, id: i64, d: Delivery) -> PassView {
    if v.halted {
        v
    } else if is_transient(d) {
        PassView { halted: true, seen: v.seen + 1, ..v }
    } else if is_poisoned(d) {
        PassView { dead_lettered: v.dead_lettered.push(id), seen: v.seen + 1, ..v }
    } else {
        PassView { delivered: v.delivered.push(id), seen: v.seen + 1, ..v }
    }
}

/// The state of a fresh pass.
pub open spec fn fresh_pass() -> PassView {
    PassView { delivered: Seq::empty(), dead_lettered: Seq::empty(), halted: false, seen: 0 }
}

/// The state after a whole sequence of (event id, outcome) pairs, taken in order.
pub open spec fn run(evs: Seq<(i64, Delivery)>) -> PassView
    decreases evs.len(),
{
    if evs.len() == 0 {
        fresh_pass()
    } else {
        step(run(evs.drop_last()), evs.last().0, evs.last().1)
    }
}

/// The ids of the events delivered in `evs`, in order.
pub open spec fn delivered_ids(evs: Seq<(i64, Delivery)>) -> Seq<i64>
    decreases evs.len(),
{
    if evs.len() == 0 {
        Seq::empty()
    } else if evs.last().1 == Delivery::Delivered {
        delivered_ids(evs.drop_last()).push(evs.last().0)
    } else {
        delivered_ids(evs.drop_last())
    }
}

/// The ids of the events dead-lettered in `evs`, in order.
pub open spec fn poisoned_ids(evs: Seq<(i64, Delivery)>) -> Seq<i64>
    decreases evs.len(),
{
    if evs.len() == 0 {
        Seq::empty()
    } else if is_poisoned(evs.last().1) {
        poisoned_ids(evs.drop_last()).push(evs.last().0)
    } else {
        poisoned_ids(evs.drop_last())
    }
}

/// The position of the first transient failure in `evs`, or its length if there is none.
pub open spec fn halt_index(evs: Seq<(i64, Delivery)>) -> nat
    decreases evs.len(),
{
    if evs.len() == 0 {
        0
    } else if halt_index(evs.drop_last()) < evs.len() - 1 {
        halt_index(evs.drop_last())
    } else if is_transient(evs.last().1) {
        (evs.len() - 1) as nat
    } else {
        evs.len()
    }
}

proof fn lemma_halt_index_bounds(evs: Seq<(i64, Delivery)>)
    ensures
        halt_index(evs) <= evs.len(),
        forall|i: int| 0 <= i < halt_index(evs) ==> !is_transient(#[trigger] evs[i].1),
        halt_index(evs) < evs.len() ==> is_transient(evs[halt_index(evs) as int].1),
    decreases evs.len(),
{
    if evs.len() > 0 {
        let p = evs.drop_last();
        lemma_halt_index_bounds(p);
        assert forall|i: int| 0 <= i < halt_index(evs) implies !is_transient(#[trigger] evs[i].1) by {
            if i < p.len() {
                assert(evs[i] == p[i]);
            }
        }
        if halt_index(p) < p.len() {
            assert(evs[halt_index(p) as int] == p[halt_index(p) as int]);
        }
    }
}

/// A pass publishes exactly the events before the first transient failure: each of them is
/// either delivered or dead-lettered, in the order of the source, and the pass stops at that
/// failure, so the failed event and everything after it stay unpublished for the next pass.
/// It dispatches the events up to and including that failure, each once and in order, and
/// none after it.
pub proof fn lemma_pass_publishes_prefix(evs: Seq<(i64, Delivery)>)
    ensures
        halt_index(evs) <= evs.len(),
        run(evs).halted <==> halt_index(evs) < evs.len(),
        run(evs).seen == (if halt_index(evs) < evs.len() {
            halt_index(evs) + 1
        } else {
            evs.len()
        }),
        run(evs).delivered == delivered_ids(evs.take(halt_index(evs) as int)),
        run(evs).dead_lettered == poisoned_ids(evs.take(halt_index(evs) as int)),
        run(evs).delivered.len() + run(evs).dead_lettered.len() == halt_index(evs),
    decreases evs.len(),
{
    lemma_halt_index_bounds(evs);
    if evs.len() == 0 {
        assert(evs.take(0) =~= Seq::<(i64, Delivery)>::empty());
    } else {
        let p = evs.drop_last();
        lemma_pass_publishes_prefix(p);
        lemma_halt_index_bounds(p);
        let k = halt_index(p);
        if k < p.len() {
            assert(evs.take(k as int) =~= p.take(k as int));
        } else {
            assert(p.take(k as int) =~= p);
            assert(evs.take(evs.len() as int) =~= evs);
            assert(evs.take(p.len() as int) =~= p);
            assert(evs.drop_last() == p);
        }
    }
}

/// The executable state of a pass over the `len` events fetched from one source.
pub struct SourcePass {
    delivered: Vec<i64>,
    dead_lettered: Vec<i64>,
    halted: bool,
    seen: usize,
    len: usize,
}

impl SourcePass {
    pub closed spec fn view(&self) -> PassView {
        PassView {
            delivered: self.delivered@,
            dead_lettered: self.dead_lettered@,
            halted: self.halted,
            seen: self.seen as nat,
        }
    }

    /// The number of events the pass goes over.
    pub closed spec fn len(&self) -> nat {
        self.len as nat
    }

    /// The index of the event to dispatch next, if any: the events are dispatched one by one,
    /// in the order fetched, until they run out or the pass stops.
    pub open spec fn next_spec(&self) -> Option<nat> {
        if !self.view().halted && self.view().seen < self.len() {
            Some(self.view().seen)
        } else {
            None
        }
    }

    /// A pass over `len` fetched events, none dispatched yet.
    pub fn new(len: usize) -> (p: SourcePass)
        ensures
            p.view() == fresh_pass(),
            p.len() == len,
    {
        SourcePass { delivered: Vec::new(), dead_lettered: Vec::new(), halted: false, seen: 0, len }
    }

    /// The index of the event to dispatch next, or `None` when the pass is over.
    pub fn next_event(&self) -> (r: Option<usize>)
        ensures
            r == (match self.next_spec() {
                Some(i) => Some(i as usize),
                None => None::<usize>,
            }),
            r matches Some(i) ==> i < self.len(),
    {
        if !self.halted && self.seen < self.len {
            Some(self.seen)
        } else {
            None
        }
    }

    /// Takes the outcome of dispatching the next event, whose id is `id`, and says what to do
    /// next.
    pub fn record(&mut self, id: i64, outcome: Delivery) -> (a: PassAction)
        requires
            old(self).next_spec() is Some,
        ensures
            final(self).view() == step(old(self).view(), id, outcome),
            final(self).len() == old(self).len(),
            a == action_of(outcome),
    {
        self.seen = self.seen + 1;
        match outcome {
            Delivery::Delivered => {
                self.delivered.push(id);
                PassAction::Continue
            },
            Delivery::Failed { attempts } => {
                if attempts >= MAX_DISPATCH_ATTEMPTS {
                    self.dead_lettered.push(id);
                    PassAction::DeadLetter
                } else {
                    self.halted = true;
                    PassAction::Halt
                }
            },
        }
    }

    pub fn is_halted(&self) -> (r: bool)
        ensures
            r == self.view().halted,
    {
        self.halted
    }

    /// The events delivered in this pass, in order; the caller marks them published.
    pub fn delivered(&self) -> (r: &Vec<i64>)
        ensures
            r@ == self.view().delivered,
    {
        &self.delivered
    }

    /// The events dead-lettered in this pass, in order.
    pub fn dead_lettered(&self) -> (r: &Vec<i64>)
        ensures
            r@ == self.view().dead_lettered,
    {
        &self.dead_lettered
    }

    /// How many events this pass delivered (what a relay tick counts).
    pub fn delivered_count(&self) -> (n: usize)
        ensures
            n == self.view().delivered.len(),
    {
        self.delivered.len()
    }
}

/// What the relay loop does between ticks.
#[derive(Debug, Clone, Copy, PartialEq, Eq, Structural)]
pub enum RelayPause {
    /// Sleep for the poll interval.
    Sleep,
    /// Only yield to other tasks, then tick again at once.
    Yield,
}

/// After a tick that delivered `Some(n)` events, or failed (`None`): sleep when there was
/// nothing to do or the tick failed, otherwise yield and drain the queue quickly.
pub fn pause_after_tick(delivered: Option<usize>) -> (p: RelayPause)
    ensures
        p == (match delivered {
            Some(n) => if n == 0 { RelayPause::Sleep } else { RelayPause::Yield },
            None => RelayPause::Sleep,
        }),
{
    match delivered {
        Some(n) => if n == 0 { RelayPause::Sleep } else { RelayPause::Yield },
        None => RelayPause::Sleep,
    }
}

} // verus!
