//! Message posting and delivery on the two execution contexts.
//!
//! The bridge offers two dispatch points: one for the UI-affine context
//! that the native run loop drains, and one for a background worker
//! context. They are genuinely distinct queues — work posted to one
//! never lands on the other. Within one queue, delivery is first in,
//! first out; between the two queues no order is promised. Once
//! delivered, a message is handed to the registered delegate's matching
//! capability method, recovered through the identity slot like any
//! other callback target.

use vstd::prelude::*;

use crate::identity::{recover_controller, ControllerTable, NativeInstance};

verus! {

/// The capability surface for receiving dispatched messages: one hook
/// per execution context, so a message arriving on the wrong side is
/// easy to notice on the implementation side.
pub trait Dispatcher<M> {
    /// A message delivered on the UI-affine context.
    fn on_ui_message(&self, message: M);

    /// A message delivered on the background context.
    fn on_background_message(&self, message: M);
}

/// What became of one delivery attempt.
#[derive(Clone, Copy, PartialEq, Eq, Structural, Debug)]
pub enum DeliveryOutcome {
    /// The queue was empty; nothing to deliver.
    Idle,
    /// A message was taken, but the delegate's handle was a lookup
    /// miss; the message is dropped rather than forwarded.
    MissingTarget,
    /// A message was taken and the delegate's capability method ran.
    Invoked,
}

/// The two posting points, each with its own pending queue, in arrival
/// order: the front is delivered next.
pub struct DispatchQueues<M> {
    /// Messages pending on the UI-affine context.
    pub main_queue: Vec<M>,
    /// Messages pending on the background context.
    pub background_queue: Vec<M>,
}

impl<M> DispatchQueues<M> {
    /// Two empty queues.
    pub fn new() -> (r: DispatchQueues<M>)
        ensures
            r.main_queue@ == Seq::<M>::empty(),
            r.background_queue@ == Seq::<M>::empty(),
    {
        let r = DispatchQueues { main_queue: Vec::new(), background_queue: Vec::new() };
        proof {
            assert(r.main_queue@ =~= Seq::<M>::empty());
            assert(r.background_queue@ =~= Seq::<M>::empty());
        }
        r
    }

    /// Posts a message for asynchronous delivery on the UI-affine
    /// context. The background context is untouched.
    pub fn dispatch_main(&mut self, message: M)
        ensures
            final(self).main_queue@ == old(self).main_queue@.push(message),
            final(self).background_queue@ == old(self).background_queue@,
    {
        self.main_queue.push(message);
    }

    /// Posts a message for asynchronous delivery on the background
    /// context — a context of its own, not the UI-affine one.
    pub fn dispatch_background(&mut self, message: M)
        ensures
            final(self).background_queue@ == old(self).background_queue@.push(message),
            final(self).main_queue@ == old(self).main_queue@,
    {
        self.background_queue.push(message);
    }

    /// Takes the next UI-affine message: the front of the queue, posted
    /// earliest among those pending.
    pub fn next_main(&mut self) -> (m: Option<M>)
        ensures
            final(self).background_queue@ == old(self).background_queue@,
            old(self).main_queue@.len() == 0 ==> m is None,
            old(self).main_queue@.len() == 0
                ==> final(self).main_queue@ == old(self).main_queue@,
            old(self).main_queue@.len() > 0 ==> m == Some(old(self).main_queue@[0]),
            old(self).main_queue@.len() > 0
                ==> final(self).main_queue@ == old(self).main_queue@.drop_first(),
    {
        if self.main_queue.len() == 0 {
            None
        } else {
            let m = self.main_queue.remove(0);
            proof {
                assert(self.main_queue@ =~= old(self).main_queue@.drop_first());
            }
            Some(m)
        }
    }

    /// Takes the next background message: the front of that queue.
    pub fn next_background(&mut self) -> (m: Option<M>)
        ensures
            final(self).main_queue@ == old(self).main_queue@,
            old(self).background_queue@.len() == 0 ==> m is None,
            old(self).background_queue@.len() == 0
                ==> final(self).background_queue@ == old(self).background_queue@,
            old(self).background_queue@.len() > 0 ==> m == Some(old(self).background_queue@[0]),
            old(self).background_queue@.len() > 0
                ==> final(self).background_queue@ == old(self).background_queue@.drop_first(),
    {
        if self.background_queue.len() == 0 {
            None
        } else {
            let m = self.background_queue.remove(0);
            proof {
                assert(self.background_queue@ =~= old(self).background_queue@.drop_first());
            }
            Some(m)
        }
    }

    /// Delivers the next UI-affine message: takes the front of the
    /// queue, recovers the registered delegate through the identity
    /// slot, and invokes its UI-message hook.
    pub fn deliver_main<T: Dispatcher<M>>(
        &mut self,
        table: &ControllerTable<T>,
        delegate_instance: &NativeInstance,
    ) -> (outcome: DeliveryOutcome)
        requires
            table.wf(),
        ensures
            final(self).background_queue@ == old(self).background_queue@,
            old(self).main_queue@.len() == 0 ==> outcome == DeliveryOutcome::Idle,
            old(self).main_queue@.len() == 0
                ==> final(self).main_queue@ == old(self).main_queue@,
            old(self).main_queue@.len() > 0
                ==> final(self).main_queue@ == old(self).main_queue@.drop_first(),
            old(self).main_queue@.len() > 0 && table.contains_handle(
                delegate_instance.stored_handle(),
            ) ==> outcome == DeliveryOutcome::Invoked,
            old(self).main_queue@.len() > 0 && !table.contains_handle(
                delegate_instance.stored_handle(),
            ) ==> outcome == DeliveryOutcome::MissingTarget,
    {
        match self.next_main() {
            Some(message) => {
                let handle = recover_controller(delegate_instance);
                match table.lookup(handle) {
                    Some(delegate) => {
                        delegate.on_ui_message(message);
                        DeliveryOutcome::Invoked
                    },
                    None => DeliveryOutcome::MissingTarget,
                }
            },
            None => DeliveryOutcome::Idle,
        }
    }

    /// Delivers the next background message to the registered
    /// delegate's background-message hook.
    pub fn deliver_background<T: Dispatcher<M>>(
        &mut self,
        table: &ControllerTable<T>,
        delegate_instance: &NativeInstance,
    ) -> (outcome: DeliveryOutcome)
        requires
            table.wf(),
        ensures
            final(self).main_queue@ == old(self).main_queue@,
            old(self).background_queue@.len() == 0 ==> outcome == DeliveryOutcome::Idle,
            old(self).background_queue@.len() == 0
                ==> final(self).background_queue@ == old(self).background_queue@,
            old(self).background_queue@.len() > 0
                ==> final(self).background_queue@ == old(self).background_queue@.drop_first(),
            old(self).background_queue@.len() > 0 && table.contains_handle(
                delegate_instance.stored_handle(),
            ) ==> outcome == DeliveryOutcome::Invoked,
            old(self).background_queue@.len() > 0 && !table.contains_handle(
                delegate_instance.stored_handle(),
            ) ==> outcome == DeliveryOutcome::MissingTarget,
    {
        match self.next_background() {
            Some(message) => {
                let handle = recover_controller(delegate_instance);
                match table.lookup(handle) {
                    Some(delegate) => {
                        delegate.on_background_message(message);
                        DeliveryOutcome::Invoked
                    },
                    None => DeliveryOutcome::MissingTarget,
                }
            },
            None => DeliveryOutcome::Idle,
        }
    }
}

/// The first `n` messages a queue hands out, delivering front first.
pub open spec fn deliveries<M>(queue: Seq<M>, n: nat) -> Seq<M>
    decreases n,
{
    if n == 0 || queue.len() == 0 {
        Seq::empty()
    } else {
        seq![queue[0]] + deliveries(queue.drop_first(), (n - 1) as nat)
    }
}

/// Delivery drains a queue in exactly queue order: the first `n`
/// deliveries are the queue's first `n` messages.
pub proof fn lemma_deliveries_in_order<M>(queue: Seq<M>, n: nat)
    requires
        n <= queue.len(),
    ensures
        deliveries(queue, n) == queue.take(n as int),
    decreases n,
{
    if n == 0 {
        assert(deliveries(queue, n) =~= queue.take(0));
    } else {
        lemma_deliveries_in_order(queue.drop_first(), (n - 1) as nat);
        assert(deliveries(queue, n) =~= queue.take(n as int));
    }
}

/// Law: two messages posted to the UI-affine queue from the same
/// caller, in program order, are delivered and invoked in that order.
/// After the two posts the first message sits strictly ahead of the
/// second, and draining the queue hands every message out in queue
/// order, so the first is invoked before the second.
pub proof fn lemma_dispatch_main_fifo<M>(pending: Seq<M>, first: M, second: M)
    ensures
        ({
            let after = pending.push(first).push(second);
            &&& deliveries(after, after.len()) == after
            &&& after[pending.len() as int] == first
            &&& after[pending.len() as int + 1] == second
        }),
{
    let after = pending.push(first).push(second);
    lemma_deliveries_in_order(after, after.len());
    assert(after.take(after.len() as int) =~= after);
}

} // verus!
