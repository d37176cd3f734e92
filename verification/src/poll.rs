//! The readiness poller and the interest registry.
//!
//! Nothing here enters the kernel. A registration is decided by
//! [`Registry::register_read`] or [`Registry::register_write`], which give
//! the `epoll_ctl` call to make, and recorded by [`Registry::armed_read`] or
//! [`Registry::armed_write`], which take what that call returned.

use std::collections::HashMap;
use vstd::prelude::*;

use crate::{EventId, RawFd};

verus! {

broadcast use vstd::std_specs::hash::group_hash_axioms;

/// Readiness for reading, in an event mask.
pub const EPOLLIN: u32 = 0x1;

/// Readiness for writing, in an event mask.
pub const EPOLLOUT: u32 = 0x4;

/// In an event mask: the interest is disarmed after one notification, until
/// it is armed again.
pub const EPOLLONESHOT: u32 = 0x4000_0000;

/// The control operation that registers a descriptor that is not yet known.
pub const EPOLL_CTL_ADD: i32 = 1;

/// The control operation that deregisters a descriptor.
pub const EPOLL_CTL_DEL: i32 = 2;

/// The control operation that changes the event of a registered descriptor.
pub const EPOLL_CTL_MOD: i32 = 3;

/// The descriptor flag that closes a descriptor when the process executes
/// another program.
pub const FD_CLOEXEC: i32 = 1;

/// How many events one wait asks the kernel for at most.
pub const MAX_EVENTS: i32 = 1024;

/// How long one wait blocks when nothing is ready, in milliseconds.
pub const POLL_TIMEOUT_MS: i32 = 1000;

/// `libc::EPOLLIN`, which libc defines as `0x1`.
#[verifier::external_body]
fn epollin() -> (flag: i32)
    ensures
        flag == 0x1,
{
    libc::EPOLLIN
}

/// `libc::EPOLLOUT`, which libc defines as `0x4`.
#[verifier::external_body]
fn epollout() -> (flag: i32)
    ensures
        flag == 0x4,
{
    libc::EPOLLOUT
}

/// `libc::EPOLLONESHOT`, which libc defines as `0x40000000`.
#[verifier::external_body]
fn epolloneshot() -> (flag: i32)
    ensures
        flag == 0x4000_0000,
{
    libc::EPOLLONESHOT
}

/// `libc::EPOLL_CTL_ADD`, which libc defines as `1`.
#[verifier::external_body]
fn epoll_ctl_add() -> (op: i32)
    ensures
        op == EPOLL_CTL_ADD,
{
    libc::EPOLL_CTL_ADD
}

/// `libc::EPOLL_CTL_MOD`, which libc defines as `3`.
#[verifier::external_body]
fn epoll_ctl_mod() -> (op: i32)
    ensures
        op == EPOLL_CTL_MOD,
{
    libc::EPOLL_CTL_MOD
}

/// `libc::EPOLL_CTL_DEL`, which libc defines as `2`.
#[verifier::external_body]
fn epoll_ctl_del() -> (op: i32)
    ensures
        op == EPOLL_CTL_DEL,
{
    libc::EPOLL_CTL_DEL
}

/// `libc::FD_CLOEXEC`, which libc defines as `0x1` on Linux.
#[verifier::external_body]
fn fd_cloexec() -> (flag: i32)
    ensures
        flag == FD_CLOEXEC,
{
    libc::FD_CLOEXEC
}

/// An error of the operating system, by its number.
#[derive(Clone, Copy, Debug, PartialEq, Eq, Structural)]
pub struct OsError {
    pub errno: i32,
}

/// How the return value of a system call is read: `-1` reports a failure,
/// whose number `errno` then holds; any other value is the call's result.
pub open spec fn syscall_spec(res: i32, errno: i32) -> Result<i32, OsError> {
    if res == -1 {
        Err(OsError { errno })
    } else {
        Ok(res)
    }
}

/// Reads the return value `res` of a system call, with the error number
/// `errno` that was current when it returned.
pub fn syscall(res: i32, errno: i32) -> (outcome: Result<i32, OsError>)
    ensures
        outcome == syscall_spec(res, errno),
{
    if res == -1 {
        Err(OsError { errno })
    } else {
        Ok(res)
    }
}

/// What is attached to a descriptor when interest is armed, and what the
/// kernel hands back when the descriptor is ready: an event mask and the
/// caller's 64 bits of data.
#[derive(Clone, Copy, Debug, PartialEq, Eq, Structural)]
pub struct EpollEvent {
    pub events: u32,
    pub data: u64,
}

impl EpollEvent {
    /// The identifier that the event was armed with.
    pub open spec fn spec_event_id(&self) -> EventId {
        self.data as usize
    }

    /// The identifier that the event was armed with.
    #[verifier::when_used_as_spec(spec_event_id)]
    pub fn event_id(&self) -> (id: EventId)
        ensures
            id == self.spec_event_id(),
    {
        #[verifier::truncate]
        (self.data as usize)
    }

    /// Whether the kernel disarms the interest after one notification.
    pub open spec fn one_shot(self) -> bool {
        self.events & EPOLLONESHOT == EPOLLONESHOT
    }
}

/// The event that arms one-shot read interest under `event_id`.
pub open spec fn read_event_spec(event_id: EventId) -> EpollEvent {
    EpollEvent { events: 0x4000_0001, data: event_id as u64 }
}

/// The event that arms one-shot write interest under `event_id`.
pub open spec fn write_event_spec(event_id: EventId) -> EpollEvent {
    EpollEvent { events: 0x4000_0004, data: event_id as u64 }
}

/// The event that arms one-shot read interest under `event_id`.
pub fn read_event(event_id: EventId) -> (event: EpollEvent)
    ensures
        event == read_event_spec(event_id),
{
    let flags: i32 = epolloneshot() | epollin();
    assert(0x4000_0000i32 | 0x1i32 == 0x4000_0001i32) by (bit_vector);
    EpollEvent { events: flags as u32, data: event_id as u64 }
}

/// The event that arms one-shot write interest under `event_id`.
pub fn write_event(event_id: EventId) -> (event: EpollEvent)
    ensures
        event == write_event_spec(event_id),
{
    let flags: i32 = epolloneshot() | epollout();
    assert(0x4000_0000i32 | 0x4i32 == 0x4000_0004i32) by (bit_vector);
    EpollEvent { events: flags as u32, data: event_id as u64 }
}

/// The kind of readiness that a descriptor is armed for.
#[derive(Clone, Copy, Debug, PartialEq, Eq, Hash, Structural)]
pub enum Interest {
    READ,
    Write,
}

impl Interest {
    /// The event that arms this interest under `event_id`.
    pub open spec fn event(self, event_id: EventId) -> EpollEvent {
        match self {
            Interest::READ => read_event_spec(event_id),
            Interest::Write => write_event_spec(event_id),
        }
    }
}

/// One request to the control plane of the readiness facility: the
/// arguments of one `epoll_ctl`.
#[derive(Clone, Copy, Debug, PartialEq, Eq)]
pub struct Ctl {
    /// The readiness facility that is addressed.
    pub epoll_fd: RawFd,
    /// One of `EPOLL_CTL_ADD`, `EPOLL_CTL_MOD` and `EPOLL_CTL_DEL`.
    pub op: i32,
    /// The descriptor that the request is about.
    pub fd: RawFd,
    /// The event to attach; a removal passes none.
    pub event: Option<EpollEvent>,
}

/// The arguments of one `epoll_wait`.
#[derive(Clone, Copy, Debug, PartialEq, Eq)]
pub struct Wait {
    /// The readiness facility that is waited on.
    pub epoll_fd: RawFd,
    /// The number of events that the kernel may report at most.
    pub max_events: i32,
    /// How long the kernel may block, in milliseconds.
    pub timeout_ms: i32,
}

/// The readiness poller: the descriptor of one readiness facility.
pub struct Poll {
    epoll_fd: RawFd,
}

impl Poll {
    /// The descriptor of the readiness facility.
    pub closed spec fn epoll_fd(&self) -> RawFd {
        self.epoll_fd
    }

    /// A poller on the readiness facility that `epoll_fd` names.
    pub fn new(epoll_fd: RawFd) -> (poller: Self)
        ensures
            poller.epoll_fd() == epoll_fd,
    {
        Self { epoll_fd }
    }

    /// The descriptor flags to set on a fresh readiness facility, given what
    /// reading its flags returned: close-on-exec is added where the flags
    /// could be read, and nothing is set where they could not.
    pub fn close_on_exec(flags: Result<i32, OsError>) -> (set: Option<i32>)
        ensures
            set == match flags {
                Ok(flags) => Some(flags | FD_CLOEXEC),
                Err(_) => None::<i32>,
            },
    {
        match flags {
            Ok(flags) => Some(flags | fd_cloexec()),
            Err(_) => None,
        }
    }

    /// An empty interest registry on the same readiness facility.
    pub fn get_registry(&self) -> (registry: Registry)
        ensures
            registry@ == (Records { epoll_fd: self.epoll_fd(), interests: Map::empty() }),
    {
        Registry::new(self.epoll_fd)
    }

    /// The wait to make: on this facility, for at most `MAX_EVENTS` events
    /// and at most `POLL_TIMEOUT_MS` milliseconds.
    pub fn wait(&self) -> (call: Wait)
        ensures
            call == (Wait {
                epoll_fd: self.epoll_fd(),
                max_events: MAX_EVENTS,
                timeout_ms: POLL_TIMEOUT_MS,
            }),
    {
        Wait { epoll_fd: self.epoll_fd, max_events: MAX_EVENTS, timeout_ms: POLL_TIMEOUT_MS }
    }

    /// Clears `events` and refills it with the batch that one wait
    /// reported: the first `ready` events of `buffer`, in the kernel's order.
    ///
    /// A wait that failed is fatal to the process and has no batch.
    pub fn poll(&self, events: &mut Vec<EpollEvent>, buffer: &[EpollEvent], ready: i32)
        requires
            0 <= ready <= buffer@.len(),
        ensures
            final(events)@ == buffer@.take(ready as int),
    {
        events.clear();
        let n: usize = ready as usize;
        let mut i: usize = 0;
        while i < n
            invariant
                i <= n,
                n <= buffer@.len(),
                events@ == buffer@.take(i as int),
            decreases n - i,
        {
            events.push(buffer[i]);
            i = i + 1;
        }
    }
}

/// What an interest registry holds: the readiness facility that it
/// addresses, and for each registered descriptor the interest that was
/// armed last.
#[verifier::ext_equal]
pub struct Records {
    pub epoll_fd: RawFd,
    pub interests: Map<RawFd, Interest>,
}

/// The request that arms `event` on `fd`: a descriptor without a record is
/// added, one with a record is modified.
pub open spec fn arm_call(records: Records, fd: RawFd, event: EpollEvent) -> Ctl {
    Ctl {
        epoll_fd: records.epoll_fd,
        op: if records.interests.contains_key(fd) {
            EPOLL_CTL_MOD
        } else {
            EPOLL_CTL_ADD
        },
        fd,
        event: Some(event),
    }
}

/// The request that deregisters `fd`.
pub open spec fn remove_call(records: Records, fd: RawFd) -> Ctl {
    Ctl { epoll_fd: records.epoll_fd, op: EPOLL_CTL_DEL, fd, event: None }
}

/// The records after the kernel answered `outcome` to a request that arms
/// `interest` on `fd`.
pub open spec fn armed_records(
    records: Records,
    fd: RawFd,
    interest: Interest,
    outcome: Result<i32, OsError>,
) -> Records {
    match outcome {
        Ok(_) => Records {
            epoll_fd: records.epoll_fd,
            interests: records.interests.insert(fd, interest),
        },
        Err(_) => records,
    }
}

/// What a registration comes to once the kernel has answered `outcome`:
/// done, or the kernel's error.
pub open spec fn armed_result(outcome: Result<i32, OsError>) -> Result<(), OsError> {
    match outcome {
        Ok(_) => Ok(()),
        Err(e) => Err(e),
    }
}

/// The records after `fd` was removed.
pub open spec fn removed_records(records: Records, fd: RawFd) -> Records {
    Records { epoll_fd: records.epoll_fd, interests: records.interests.remove(fd) }
}

/// The interest registry: for each descriptor the interest that is armed.
pub struct Registry {
    epoll_fd: RawFd,
    io_sources: HashMap<RawFd, Interest>,
}

impl View for Registry {
    type V = Records;

    closed spec fn view(&self) -> Records {
        Records { epoll_fd: self.epoll_fd, interests: self.io_sources@ }
    }
}

impl Registry {
    /// A registry without records on the readiness facility `epoll_fd`.
    pub fn new(epoll_fd: RawFd) -> (registry: Self)
        ensures
            registry@ == (Records { epoll_fd, interests: Map::empty() }),
    {
        Self { epoll_fd, io_sources: HashMap::new() }
    }

    fn arm(&self, fd: RawFd, event: EpollEvent) -> (call: Ctl)
        ensures
            call == arm_call(self@, fd, event),
    {
        let op: i32 = if self.io_sources.contains_key(&fd) {
            epoll_ctl_mod()
        } else {
            epoll_ctl_add()
        };
        Ctl { epoll_fd: self.epoll_fd, op, fd, event: Some(event) }
    }

    /// The request that arms one-shot read interest on `fd` under
    /// `event_id`. The registry records the interest once
    /// [`Registry::armed_read`] has been given the kernel's answer.
    pub fn register_read(&self, fd: RawFd, event_id: EventId) -> (call: Ctl)
        ensures
            call == arm_call(self@, fd, read_event_spec(event_id)),
    {
        self.arm(fd, read_event(event_id))
    }

    /// The request that arms one-shot write interest on `fd` under
    /// `event_id`. The registry records the interest once
    /// [`Registry::armed_write`] has been given the kernel's answer.
    pub fn register_write(&self, fd: RawFd, event_id: EventId) -> (call: Ctl)
        ensures
            call == arm_call(self@, fd, write_event_spec(event_id)),
    {
        self.arm(fd, write_event(event_id))
    }

    fn armed(&mut self, fd: RawFd, interest: Interest, outcome: Result<i32, OsError>) -> (done:
        Result<(), OsError>)
        ensures
            final(self)@ == armed_records(old(self)@, fd, interest, outcome),
            done == armed_result(outcome),
    {
        match outcome {
            Ok(_) => {
                self.io_sources.insert(fd, interest);
                Ok(())
            },
            Err(e) => Err(e),
        }
    }

    /// Takes the kernel's answer to the request of
    /// [`Registry::register_read`] on `fd`. Where the kernel accepted the
    /// request, read interest becomes the record of `fd`; where it refused,
    /// the records stay as they are and the error is handed on.
    pub fn armed_read(&mut self, fd: RawFd, outcome: Result<i32, OsError>) -> (done: Result<
        (),
        OsError,
    >)
        ensures
            final(self)@ == armed_records(old(self)@, fd, Interest::READ, outcome),
            done == armed_result(outcome),
    {
        self.armed(fd, Interest::READ, outcome)
    }

    /// Takes the kernel's answer to the request of
    /// [`Registry::register_write`] on `fd`. Where the kernel accepted the
    /// request, write interest becomes the record of `fd`; where it refused,
    /// the records stay as they are and the error is handed on.
    pub fn armed_write(&mut self, fd: RawFd, outcome: Result<i32, OsError>) -> (done: Result<
        (),
        OsError,
    >)
        ensures
            final(self)@ == armed_records(old(self)@, fd, Interest::Write, outcome),
            done == armed_result(outcome),
    {
        self.armed(fd, Interest::Write, outcome)
    }

    /// Drops the record of `fd`, whether there is one or not, and gives the
    /// request that deregisters `fd`. What follows the kernel's answer is
    /// decided by [`Registry::removed`].
    pub fn remove_interests(&mut self, fd: RawFd) -> (call: Ctl)
        ensures
            final(self)@ == removed_records(old(self)@, fd),
            call == remove_call(old(self)@, fd),
    {
        self.io_sources.remove(&fd);
        Ctl { epoll_fd: self.epoll_fd, op: epoll_ctl_del(), fd, event: None }
    }

    /// Takes the kernel's answer to the request that deregisters `fd`. Where
    /// the kernel accepted it, `fd` is handed back to be closed; where it
    /// refused, the error is handed on and `fd` stays open.
    pub fn removed(fd: RawFd, outcome: Result<i32, OsError>) -> (close: Result<RawFd, OsError>)
        ensures
            close == match outcome {
                Ok(_) => Ok::<RawFd, OsError>(fd),
                Err(e) => Err::<RawFd, OsError>(e),
            },
    {
        match outcome {
            Ok(_) => Ok(fd),
            Err(e) => Err(e),
        }
    }
}

/// One completed operation on a registry.
pub enum Op {
    /// `interest` was requested on `fd` under `event_id`, and the kernel
    /// answered `outcome`.
    Arm { fd: RawFd, interest: Interest, event_id: EventId, outcome: Result<i32, OsError> },
    /// `fd` was removed.
    Remove { fd: RawFd },
}

impl Op {
    /// The request that the operation makes of the kernel, on a registry
    /// that holds `records`.
    pub open spec fn call(self, records: Records) -> Ctl {
        match self {
            Op::Arm { fd, interest, event_id, .. } => arm_call(
                records,
                fd,
                interest.event(event_id),
            ),
            Op::Remove { fd } => remove_call(records, fd),
        }
    }

    /// The records after the operation, on a registry that held `records`.
    pub open spec fn apply(self, records: Records) -> Records {
        match self {
            Op::Arm { fd, interest, outcome, .. } => armed_records(records, fd, interest, outcome),
            Op::Remove { fd } => removed_records(records, fd),
        }
    }

    /// Whether the operation requests an interest on `fd`.
    pub open spec fn arms(self, fd: RawFd) -> bool {
        self matches Op::Arm { fd: armed, .. } && armed == fd
    }

    /// Whether the operation requests an interest on `fd` and the kernel
    /// accepts it.
    pub open spec fn arms_with_success(self, fd: RawFd) -> bool {
        self matches Op::Arm { fd: armed, outcome, .. } && armed == fd && outcome is Ok
    }

    /// Whether the operation removes `fd`.
    pub open spec fn removes(self, fd: RawFd) -> bool {
        self matches Op::Remove { fd: removed } && removed == fd
    }
}

/// The records after the operations `ops`, in order, on a registry that
/// held `start`.
pub open spec fn replay(start: Records, ops: Seq<Op>) -> Records
    decreases ops.len(),
{
    if ops.len() == 0 {
        start
    } else {
        ops.last().apply(replay(start, ops.drop_last()))
    }
}

proof fn lemma_unseen_stays_unseen(start: Records, ops: Seq<Op>, fd: RawFd)
    requires
        !start.interests.contains_key(fd),
        forall|k: int| 0 <= k < ops.len() ==> !(#[trigger] ops[k]).arms_with_success(fd),
    ensures
        !replay(start, ops).interests.contains_key(fd),
    decreases ops.len(),
{
    if ops.len() > 0 {
        lemma_unseen_stays_unseen(start, ops.drop_last(), fd);
    }
}

proof fn lemma_seen_stays_seen(start: Records, ops: Seq<Op>, fd: RawFd, i: int)
    requires
        0 <= i < ops.len(),
        ops[i].arms_with_success(fd),
        forall|k: int| i < k < ops.len() ==> !(#[trigger] ops[k]).removes(fd),
    ensures
        replay(start, ops).interests.contains_key(fd),
    decreases ops.len(),
{
    if i < ops.len() - 1 {
        lemma_seen_stays_seen(start, ops.drop_last(), fd, i);
    }
}

/// A registration on a descriptor that the registry has not seen asks the
/// kernel to add it, and goes on asking for an add until the kernel has
/// accepted one: of the operations `ops` on a registry that held `start`,
/// the one at `j` adds `fd` where `start` had no record of `fd` and no
/// earlier operation armed `fd` with success.
pub proof fn lemma_first_registration_adds(start: Records, ops: Seq<Op>, fd: RawFd, j: int)
    requires
        !start.interests.contains_key(fd),
        0 <= j < ops.len(),
        ops[j].arms(fd),
        forall|k: int| 0 <= k < j ==> !(#[trigger] ops[k]).arms_with_success(fd),
    ensures
        ops[j].call(replay(start, ops.take(j))).op == EPOLL_CTL_ADD,
        ops[j].call(replay(start, ops.take(j))).fd == fd,
{
    lemma_unseen_stays_unseen(start, ops.take(j), fd);
}

/// Once the kernel has accepted a registration of a descriptor, every
/// later registration of it asks for a modification and never for a second
/// add, until the descriptor is removed: of the operations `ops` on a
/// registry that held `start`, the one at `j` modifies `fd` where the one at
/// `i` armed `fd` with success and none between them removed `fd`.
pub proof fn lemma_later_registration_modifies(
    start: Records,
    ops: Seq<Op>,
    fd: RawFd,
    i: int,
    j: int,
)
    requires
        0 <= i < j < ops.len(),
        ops[i].arms_with_success(fd),
        ops[j].arms(fd),
        forall|k: int| i < k < j ==> !(#[trigger] ops[k]).removes(fd),
    ensures
        ops[j].call(replay(start, ops.take(j))).op == EPOLL_CTL_MOD,
        ops[j].call(replay(start, ops.take(j))).fd == fd,
{
    lemma_seen_stays_seen(start, ops.take(j), fd, i);
}

/// After a removal the descriptor is unseen again: the next registration
/// of `fd` asks the kernel for an add, whatever the registry held.
pub proof fn lemma_registration_after_removal_adds(records: Records, fd: RawFd, event: EpollEvent)
    ensures
        arm_call(removed_records(records, fd), fd, event).op == EPOLL_CTL_ADD,
{
}

/// Every event that a registration attaches is one-shot, and carries the
/// identifier that it was armed under back out.
pub proof fn lemma_armed_events_are_one_shot(interest: Interest, event_id: EventId)
    ensures
        interest.event(event_id).one_shot(),
        interest.event(event_id).spec_event_id() == event_id,
        interest == Interest::READ ==> interest.event(event_id).events & EPOLLIN == EPOLLIN,
        interest == Interest::Write ==> interest.event(event_id).events & EPOLLOUT == EPOLLOUT,
{
    assert(0x4000_0001u32 & 0x4000_0000u32 == 0x4000_0000u32) by (bit_vector);
    assert(0x4000_0004u32 & 0x4000_0000u32 == 0x4000_0000u32) by (bit_vector);
    assert(0x4000_0001u32 & 0x1u32 == 0x1u32) by (bit_vector);
    assert(0x4000_0004u32 & 0x4u32 == 0x4u32) by (bit_vector);
}

} // verus!
