//! The callback executor: two tables from event identifiers to handlers,
//! and the dispatch of one notification.

use std::collections::HashMap;
use vstd::prelude::*;

use crate::EventId;

verus! {

broadcast use vstd::std_specs::hash::group_hash_axioms;

/// What an executor holds: the persistent handlers and the one-shot
/// handlers, each keyed by event identifier. One identifier may stand in
/// both tables; the executor does not prevent it.
#[verifier::ext_equal]
pub struct Tables<H> {
    pub keep: Map<EventId, H>,
    pub once: Map<EventId, H>,
}

/// A callback that the executor invokes when its event is notified.
pub trait Handler: Sized {
    /// What one invocation may do: it takes the handler from `self` to
    /// `after_self` and the executor's tables from `before` to `after`.
    /// A handler that says nothing may do anything.
    open spec fn fires(self, before: Tables<Self>, after_self: Self, after: Tables<Self>) -> bool {
        true
    }

    /// Runs the handler. It has exclusive access to the executor, so that
    /// it can register follow-up work; while it runs, it stands in neither
    /// table itself.
    fn invoke(&mut self, exec: &mut Executor<Self>)
        ensures
            old(self).fires(old(exec)@, *final(self), final(exec)@),
    ;
}

/// The executor: maps an event identifier to the handler that is waiting
/// for it, persistent or one-shot.
pub struct Executor<H> {
    event_map: HashMap<EventId, H>,
    event_map_once: HashMap<EventId, H>,
}

impl<H> View for Executor<H> {
    type V = Tables<H>;

    closed spec fn view(&self) -> Tables<H> {
        Tables { keep: self.event_map@, once: self.event_map_once@ }
    }
}

/// The tables without the persistent handler of `event_id`.
pub open spec fn without_keep<H>(tables: Tables<H>, event_id: EventId) -> Tables<H> {
    Tables { keep: tables.keep.remove(event_id), once: tables.once }
}

/// The tables without the one-shot handler of `event_id`.
pub open spec fn without_once<H>(tables: Tables<H>, event_id: EventId) -> Tables<H> {
    Tables { keep: tables.keep, once: tables.once.remove(event_id) }
}

/// The tables with `fun` as the persistent handler of `event_id`.
pub open spec fn with_keep<H>(tables: Tables<H>, event_id: EventId, fun: H) -> Tables<H> {
    Tables { keep: tables.keep.insert(event_id, fun), once: tables.once }
}

/// The tables with `fun` as the one-shot handler of `event_id`.
pub open spec fn with_once<H>(tables: Tables<H>, event_id: EventId, fun: H) -> Tables<H> {
    Tables { keep: tables.keep, once: tables.once.insert(event_id, fun) }
}

/// A notification for `event_id` invokes the persistent handler of
/// `event_id` and takes the tables from `before` to `after`: the handler is
/// taken out, runs on what is left, and is put back, as it is after the
/// run, over whatever the run left under `event_id`.
pub open spec fn fires_keep<H: Handler>(before: Tables<H>, event_id: EventId, after: Tables<H>) -> bool {
    exists|fun: H, left: Tables<H>|
        {
            &&& #[trigger] before.keep[event_id].fires(without_keep(before, event_id), fun, left)
            &&& after == with_keep(left, event_id, fun)
        }
}

/// A notification for `event_id` invokes the one-shot handler of
/// `event_id` and takes the tables from `before` to `after`: the handler is
/// taken out, runs on what is left, and is dropped.
pub open spec fn fires_once<H: Handler>(before: Tables<H>, event_id: EventId, after: Tables<H>) -> bool {
    exists|fun: H| #[trigger]
        before.once[event_id].fires(without_once(before, event_id), fun, after)
}

/// How one notification for `event_id` takes the tables from `before` to
/// `after`: the persistent handler is looked up first, the one-shot handler
/// second, and a notification that finds neither is dropped.
pub open spec fn dispatched<H: Handler>(before: Tables<H>, event_id: EventId, after: Tables<H>) -> bool {
    if before.keep.contains_key(event_id) {
        fires_keep(before, event_id, after)
    } else if before.once.contains_key(event_id) {
        fires_once(before, event_id, after)
    } else {
        after == before
    }
}

impl<H> Executor<H> {
    /// An executor without handlers.
    pub fn new() -> (exec: Self)
        ensures
            exec@ == (Tables { keep: Map::<EventId, H>::empty(), once: Map::<EventId, H>::empty() }),
    {
        Self { event_map: HashMap::new(), event_map_once: HashMap::new() }
    }

    /// Installs `f` as the one-shot handler of `event_id`, in place of an
    /// earlier one-shot handler of `event_id`.
    pub fn await_once(&mut self, event_id: EventId, f: H)
        ensures
            final(self)@ == with_once(old(self)@, event_id, f),
    {
        self.event_map_once.insert(event_id, f);
    }

    /// Installs `f` as the persistent handler of `event_id`, in place of an
    /// earlier persistent handler of `event_id`.
    pub fn await_keep(&mut self, event_id: EventId, f: H)
        ensures
            final(self)@ == with_keep(old(self)@, event_id, f),
    {
        self.event_map.insert(event_id, f);
    }

}

impl<H: Handler> Executor<H> {
    /// Dispatches one notification for `event_id`.
    ///
    /// A persistent handler that installs another persistent handler under
    /// its own identifier while it runs is put back over it: the handler
    /// that ran stays.
    pub fn run(&mut self, event_id: EventId)
        ensures
            dispatched(old(self)@, event_id, final(self)@),
    {
        let ghost before = self@;
        if let Some(mut fun) = self.event_map.remove(&event_id) {
            fun.invoke(self);
            let ghost left = self@;
            self.event_map.insert(event_id, fun);
            assert(before.keep[event_id].fires(without_keep(before, event_id), fun, left));
        } else {
            if let Some(mut fun) = self.event_map_once.remove(&event_id) {
                assert(self@ == without_once(before, event_id));
                fun.invoke(self);
            } else {
                assert(self@ == before);
            }
        }
    }
}

/// A notification for an identifier that has a handler in neither table
/// changes nothing.
pub proof fn lemma_dangling_notification_is_dropped<H: Handler>(
    before: Tables<H>,
    event_id: EventId,
    after: Tables<H>,
)
    requires
        !before.keep.contains_key(event_id),
        !before.once.contains_key(event_id),
        dispatched(before, event_id, after),
    ensures
        after == before,
{
}

/// Where an identifier has a persistent handler, a notification invokes
/// that one, whether or not a one-shot handler stands under the same
/// identifier: the persistent handler runs on tables that still hold every
/// one-shot handler, it is installed again afterwards, and the one-shot
/// table is left as the persistent handler left it.
pub proof fn lemma_persistent_takes_precedence<H: Handler>(
    before: Tables<H>,
    event_id: EventId,
    after: Tables<H>,
)
    requires
        before.keep.contains_key(event_id),
        dispatched(before, event_id, after),
    ensures
        fires_keep(before, event_id, after),
        without_keep(before, event_id).once == before.once,
        after.keep.contains_key(event_id),
        exists|fun: H, left: Tables<H>|
            {
                &&& #[trigger] before.keep[event_id].fires(without_keep(before, event_id), fun, left)
                &&& after.keep[event_id] == fun
                &&& after.once == left.once
            },
{
    let (fun, left) = choose|fun: H, left: Tables<H>|
        {
            &&& #[trigger] before.keep[event_id].fires(without_keep(before, event_id), fun, left)
            &&& after == with_keep(left, event_id, fun)
        };
}

/// Where an identifier has a one-shot handler and no persistent one, a
/// notification invokes the one-shot handler on tables that no longer hold
/// it, and leaves the tables as that handler left them.
pub proof fn lemma_one_shot_is_taken_out<H: Handler>(
    before: Tables<H>,
    event_id: EventId,
    after: Tables<H>,
)
    requires
        !before.keep.contains_key(event_id),
        before.once.contains_key(event_id),
        dispatched(before, event_id, after),
    ensures
        fires_once(before, event_id, after),
        !without_once(before, event_id).once.contains_key(event_id),
        !without_once(before, event_id).keep.contains_key(event_id),
{
}

} // verus!
