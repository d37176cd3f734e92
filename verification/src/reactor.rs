//! The reactor: owner of the interest registry, and the rule by which a
//! batch of ready events becomes notifications.

use vstd::prelude::*;

use crate::poll::{
    arm_call, armed_records, armed_result, read_event_spec, remove_call, removed_records, write_event_spec, Ctl,
    EpollEvent, Interest, OsError, Poll, Records, Registry,
};
use crate::{EventId, RawFd};

verus! {

/// The reactor. Its registry is absent until [`Reactor::run`] has set it up.
pub struct Reactor {
    pub registry: Option<Registry>,
}

/// The identifiers that a batch of ready events is forwarded as: one for
/// each event, in the order of the batch.
pub open spec fn notifications_spec(events: Seq<EpollEvent>) -> Seq<EventId> {
    events.map_values(|event: EpollEvent| event.spec_event_id())
}

impl Reactor {
    /// A reactor that has not been started.
    pub fn new() -> (reactor: Self)
        ensures
            reactor.registry is None,
    {
        Self { registry: None }
    }

    /// Starts the reactor on the readiness facility `epoll_fd`: sets up an
    /// empty registry on it and gives the poller that the background loop
    /// waits with.
    pub fn run(&mut self, epoll_fd: RawFd) -> (poller: Poll)
        ensures
            poller.epoll_fd() == epoll_fd,
            final(self).registry is Some,
            final(self).registry->0@ == (Records { epoll_fd, interests: Map::empty() }),
    {
        let poller = Poll::new(epoll_fd);
        let registry = poller.get_registry();
        self.registry = Some(registry);
        poller
    }

    /// What the background loop sends after one wait: the identifier of
    /// each ready event, in the order in which the kernel reported them.
    pub fn notifications(events: &Vec<EpollEvent>) -> (ids: Vec<EventId>)
        ensures
            ids@ == notifications_spec(events@),
    {
        let mut ids: Vec<EventId> = Vec::new();
        let mut i: usize = 0;
        while i < events.len()
            invariant
                i <= events.len(),
                ids@ == notifications_spec(events@.take(i as int)),
            decreases events.len() - i,
        {
            ids.push(events[i].event_id());
            i = i + 1;
        }
        ids
    }

    /// The request that arms one-shot read interest on `fd` under
    /// `event_id`; see [`Registry::register_read`].
    pub fn read_interest(&self, fd: RawFd, event_id: EventId) -> (call: Ctl)
        requires
            self.registry is Some,
        ensures
            call == arm_call(self.registry->0@, fd, read_event_spec(event_id)),
    {
        self.registry.as_ref().expect("registry read is set").register_read(fd, event_id)
    }

    /// The request that arms one-shot write interest on `fd` under
    /// `event_id`; see [`Registry::register_write`].
    pub fn write_interest(&self, fd: RawFd, event_id: EventId) -> (call: Ctl)
        requires
            self.registry is Some,
        ensures
            call == arm_call(self.registry->0@, fd, write_event_spec(event_id)),
    {
        self.registry.as_ref().expect("registry write is set").register_write(fd, event_id)
    }

    /// Takes the kernel's answer to the request of
    /// [`Reactor::read_interest`] on `fd`; see [`Registry::armed_read`].
    pub fn armed_read(&mut self, fd: RawFd, outcome: Result<i32, OsError>) -> (done: Result<
        (),
        OsError,
    >)
        requires
            old(self).registry is Some,
        ensures
            final(self).registry is Some,
            final(self).registry->0@ == armed_records(
                old(self).registry->0@,
                fd,
                Interest::READ,
                outcome,
            ),
            done == armed_result(outcome),
    {
        self.registry.as_mut().expect("registry read is set").armed_read(fd, outcome)
    }

    /// Takes the kernel's answer to the request of
    /// [`Reactor::write_interest`] on `fd`; see [`Registry::armed_write`].
    pub fn armed_write(&mut self, fd: RawFd, outcome: Result<i32, OsError>) -> (done: Result<
        (),
        OsError,
    >)
        requires
            old(self).registry is Some,
        ensures
            final(self).registry is Some,
            final(self).registry->0@ == armed_records(
                old(self).registry->0@,
                fd,
                Interest::Write,
                outcome,
            ),
            done == armed_result(outcome),
    {
        self.registry.as_mut().expect("registry write is set").armed_write(fd, outcome)
    }

    /// Drops the record of `fd` and gives the request that deregisters it;
    /// see [`Registry::remove_interests`] and [`Registry::removed`].
    pub fn close(&mut self, fd: RawFd) -> (call: Ctl)
        requires
            old(self).registry is Some,
        ensures
            final(self).registry is Some,
            final(self).registry->0@ == removed_records(old(self).registry->0@, fd),
            call == remove_call(old(self).registry->0@, fd),
    {
        self.registry.as_mut().expect("registry close is set").remove_interests(fd)
    }
}

/// A batch is forwarded as one notification for each ready event, and an
/// event that carries the data of an armed event is forwarded under the
/// identifier that it was armed with: where `events[i]` holds the data that
/// `interest` was armed with under `event_id`, the notification at `i` is
/// `event_id`.
pub proof fn lemma_one_notification_per_event(
    events: Seq<EpollEvent>,
    i: int,
    interest: Interest,
    event_id: EventId,
)
    requires
        0 <= i < events.len(),
        events[i].data == interest.event(event_id).data,
    ensures
        notifications_spec(events).len() == events.len(),
        notifications_spec(events)[i] == event_id,
{
}

} // verus!
