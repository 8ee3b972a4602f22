//! A readiness-based event notification core, written without I/O of its own.
//!
//! The crate decides; its caller performs. Every system call that the reactor
//! needs is described by a plain record (which call, with which arguments),
//! handed to the caller, and its raw return handed back as a [`SysReturn`].
//! What to ask of the kernel, how to read its answer, when to retry and when
//! to report shutdown are all decided here.
use std::sync::atomic::AtomicBool;
use std::sync::Arc;
use vstd::prelude::*;

pub mod linux;
pub mod macos;
pub mod shutdown;

verus! {

/// Caller-chosen identifier of a registration. It is never interpreted, only
/// carried from the registration to the event that the registration produces.
pub type Token = usize;

const WRITABLE: u8 = 0b0000_0001;

const READABLE: u8 = 0b0000_0010;

/// The error number that both supported kernels give a call cut short by a
/// signal.
pub const EINTR: i32 = 4;

/// A set of readiness directions, kept as a bit mask.
#[derive(Debug, Clone, Copy)]
pub struct Interests(u8);

impl Interests {
    /// Whether the set holds the readable direction.
    pub closed spec fn wants_read(&self) -> bool {
        self.0 & READABLE != 0
    }

    /// Whether the set holds the writable direction.
    pub closed spec fn wants_write(&self) -> bool {
        self.0 & WRITABLE != 0
    }

    /// The set that holds the readable direction alone.
    pub fn readable() -> (r: Interests)
        ensures
            r.wants_read(),
            !r.wants_write(),
    {
        assert(READABLE & READABLE != 0 && READABLE & WRITABLE == 0) by (bit_vector);
        Interests(READABLE)
    }

    /// The set that holds the writable direction alone.
    pub fn writable() -> (r: Interests)
        ensures
            r.wants_write(),
            !r.wants_read(),
    {
        assert(WRITABLE & WRITABLE != 0 && WRITABLE & READABLE == 0) by (bit_vector);
        Interests(WRITABLE)
    }

    pub fn is_readable(&self) -> (r: bool)
        ensures
            r == self.wants_read(),
    {
        self.0 & READABLE != 0
    }

    pub fn is_writable(&self) -> (r: bool)
        ensures
            r == self.wants_write(),
    {
        self.0 & WRITABLE != 0
    }
}

/// `a | b` holds a direction exactly when `a` or `b` holds it.
impl core::ops::BitOr for Interests {
    type Output = Interests;

    fn bitor(self, rhs: Interests) -> (r: Interests)
        ensures
            r.wants_read() == (self.wants_read() || rhs.wants_read()),
            r.wants_write() == (self.wants_write() || rhs.wants_write()),
    {
        let a: u8 = self.0;
        let b: u8 = rhs.0;
        assert(((a | b) & READABLE != 0) == (a & READABLE != 0 || b & READABLE != 0))
            by (bit_vector);
        assert(((a | b) & WRITABLE != 0) == (a & WRITABLE != 0 || b & WRITABLE != 0))
            by (bit_vector);
        Interests(a | b)
    }
}

impl vstd::std_specs::ops::BitOrSpecImpl for Interests {
    open spec fn obeys_bitor_spec() -> bool {
        true
    }

    open spec fn bitor_req(self, rhs: Interests) -> bool {
        true
    }

    closed spec fn bitor_spec(self, rhs: Interests) -> Interests {
        Interests(self.0 | rhs.0)
    }
}

/// Why an operation of the reactor did not succeed.
#[derive(Debug, Clone, Copy, PartialEq, Eq, Structural)]
pub enum Error {
    /// A system call failed. The number is the thread's error number, read
    /// right after the call.
    Os(i32),
    /// Shutdown has been requested: the polling loop is over.
    Closed,
    /// A direction was asked for that no backend registers.
    Unimplemented,
}

impl Error {
    /// Whether this is the failure of a call that a signal cut short.
    pub open spec fn interrupted(self) -> bool {
        self == Error::Os(EINTR)
    }

    pub fn is_interrupted(&self) -> (r: bool)
        ensures
            r == self.interrupted(),
    {
        match self {
            Error::Os(code) => *code == EINTR,
            _ => false,
        }
    }
}

/// What a system call handed back: the value it returned, and the thread's
/// error number read right after it.
#[derive(Debug, Clone, Copy, PartialEq, Eq, Structural)]
pub struct SysReturn {
    pub value: i32,
    pub errno: i32,
}

impl SysReturn {
    /// A negative return is a failure, named by the error number; any other
    /// return is the call's result.
    pub open spec fn checked(self) -> Result<i32, Error> {
        if self.value < 0 {
            Err(Error::Os(self.errno))
        } else {
            Ok(self.value)
        }
    }

    pub fn check(self) -> (r: Result<i32, Error>)
        ensures
            r == self.checked(),
    {
        if self.value < 0 {
            Err(Error::Os(self.errno))
        } else {
            Ok(self.value)
        }
    }
}

/// What a kernel's readiness queue must offer for [`Poll`] to drive it. Each
/// supported kernel has one implementation.
pub trait Backend: Sized {
    /// The kernel's record of one readiness event.
    type Event;

    /// The description of one blocking wait call.
    type Wait: View;

    /// The handle that enrolls sources in a queue of this kind.
    type Registrator;

    /// The descriptor of the queue.
    spec fn handle(&self) -> i32;

    /// The wait call on this queue for a buffer of `capacity` records and the
    /// given timeout in milliseconds (`None`: no timeout).
    spec fn wait_call(&self, capacity: usize, timeout_ms: Option<i32>) -> <Self::Wait as View>::V;

    /// The queue that a registrator enrolls sources in.
    spec fn serves(registrator: &Self::Registrator) -> i32;

    /// Takes over the queue that a creation call returned.
    fn new(created: SysReturn) -> (r: Result<Self, Error>)
        ensures
            created.value < 0 ==> r is Err && r->Err_0 == Error::Os(created.errno),
            created.value >= 0 ==> r is Ok && r->Ok_0.handle() == created.value,
    ;

    /// Empties `events` and describes the wait call to make. The buffer's
    /// capacity decides how many records the call may deliver.
    fn select(&self, events: &mut Vec<Self::Event>, timeout_ms: Option<i32>) -> (w: Self::Wait)
        ensures
            final(events)@ == Seq::<Self::Event>::empty(),
            exists|capacity: usize| w@ == self.wait_call(capacity, timeout_ms),
    ;

    /// Reads the return of the wait call. On success `events` holds the
    /// records that the call delivered: as many of `delivered`, from its
    /// start, as the call counted.
    fn selected(
        &self,
        events: &mut Vec<Self::Event>,
        waited: SysReturn,
        delivered: Vec<Self::Event>,
    ) -> (r: Result<(), Error>)
        ensures
            final(events)@ == delivery(old(events)@, waited, delivered@),
            waited.value < 0 ==> r == Err::<(), Error>(Error::Os(waited.errno)),
            waited.value >= 0 ==> r == Ok::<(), Error>(()),
    ;

    /// A handle that enrolls sources in this queue and shares `is_poll_dead`
    /// as its shutdown flag.
    fn registrator(&self, is_poll_dead: Arc<AtomicBool>) -> (r: Self::Registrator)
        ensures
            Self::serves(&r) == self.handle(),
    ;

    /// The descriptor to close when the queue is given up.
    fn raw_fd(&self) -> (fd: i32)
        ensures
            fd == self.handle(),
    ;

    /// Reads the return of the call that closed the queue. On `Err` the
    /// caller aborts; `unwinding` says that it is failing already.
    fn release(&self, closed: SysReturn, unwinding: bool) -> (r: Result<(), Error>)
        ensures
            r == release_outcome(closed, unwinding),
    ;
}

/// How many records a wait call may deliver into a buffer of `capacity`
/// records: the capacity, as far as the kernel's count can express it.
pub open spec fn buffer_limit(capacity: usize) -> i32 {
    if capacity > i32::MAX {
        i32::MAX
    } else {
        capacity as i32
    }
}

/// Computes [`buffer_limit`].
pub fn limit_of(capacity: usize) -> (n: i32)
    ensures
        n == buffer_limit(capacity),
{
    if capacity > i32::MAX as usize {
        i32::MAX
    } else {
        capacity as i32
    }
}

/// How many records `events` can hold without growing.
///
/// Trusted: the body is `Vec::capacity`. The allocator decides the number,
/// so nothing is claimed of it.
#[verifier::external_body]
pub(crate) fn capacity_of<E>(events: &Vec<E>) -> usize {
    events.capacity()
}

/// How the release of a queue ends, given what the closing call returned:
/// a failure to close is fatal, unless the thread is unwinding from an
/// earlier failure already, which it must not mask.
pub open spec fn release_outcome(closed: SysReturn, unwinding: bool) -> Result<(), Error> {
    if closed.value < 0 && !unwinding {
        Err(Error::Os(closed.errno))
    } else {
        Ok(())
    }
}

/// What an event buffer holds once a wait call has returned: on failure what
/// it held before, on success the first `waited.value` records of
/// `delivered` (all of them, if there are fewer).
pub open spec fn delivery<E>(before: Seq<E>, waited: SysReturn, delivered: Seq<E>) -> Seq<E> {
    if waited.value < 0 {
        before
    } else if waited.value <= delivered.len() {
        delivered.subrange(0, waited.value as int)
    } else {
        delivered
    }
}

/// Owner of the readiness queue.
#[derive(Debug)]
pub struct Registry<S> {
    selector: S,
}

/// The polling loop's own end of the reactor: it owns the queue and the
/// shutdown flag.
#[derive(Debug)]
pub struct Poll<S> {
    registry: Registry<S>,
    is_poll_dead: Arc<AtomicBool>,
}

/// What the polling loop does once a wait call has returned.
#[derive(Debug, Clone, Copy, PartialEq, Eq)]
pub enum PollStep {
    /// A signal cut the wait short: make the same call again.
    Retry,
    /// The poll is over, with the number of events delivered or the reason
    /// for its failure.
    Done(Result<usize, Error>),
}

/// The timeout that a poll waits with: none where none was given, and a
/// negative one counted as zero.
pub open spec fn poll_timeout(timeout_ms: Option<i32>) -> Option<i32> {
    match timeout_ms {
        None => None,
        Some(n) => Some(if n < 0 { 0 } else { n }),
    }
}

/// The polling loop's step after a wait that ended as `selected`, under a
/// shutdown flag that reads `closed`.
pub open spec fn poll_step(selected: Result<usize, Error>, closed: bool) -> PollStep {
    match selected {
        Err(e) => if e.interrupted() {
            PollStep::Retry
        } else {
            PollStep::Done(Err(e))
        },
        Ok(n) => if closed {
            PollStep::Done(Err(Error::Closed))
        } else {
            PollStep::Done(Ok(n))
        },
    }
}

/// The end of a wait as the polling loop sees it: the failure, or the number
/// of events now in the buffer.
pub open spec fn selection(waited: SysReturn, count: nat) -> Result<usize, Error> {
    if waited.value < 0 {
        Err(Error::Os(waited.errno))
    } else {
        Ok(count as usize)
    }
}

/// A poll whose wait returns after a shutdown request can only end as
/// closed: however many events the wait delivered, none is reported as a
/// count.
pub proof fn lemma_poll_after_shutdown(flag: bool, waited: SysReturn, count: nat)
    requires
        waited.value >= 0,
    ensures
        poll_step(selection(waited, count), shutdown::after_set_once(flag)) == PollStep::Done(
            Err(Error::Closed),
        ),
{
}

/// A wait that a signal cut short is the one failure that a poll answers
/// with another wait; every other failure ends the poll and is handed on
/// as it came.
pub proof fn lemma_poll_retries_on_interrupt_only(waited: SysReturn, count: nat, closed: bool)
    requires
        waited.value < 0,
    ensures
        waited.errno == EINTR ==> poll_step(selection(waited, count), closed) == PollStep::Retry,
        waited.errno != EINTR ==> poll_step(selection(waited, count), closed) == PollStep::Done(
            Err(Error::Os(waited.errno)),
        ),
{
}

impl<S: Backend> Poll<S> {
    /// The queue that this poll waits on.
    pub closed spec fn selector(&self) -> S {
        self.registry.selector
    }

    /// A poll on the queue that a creation call returned, with a shutdown
    /// flag that is not set.
    pub fn new(created: SysReturn) -> (r: Result<Poll<S>, Error>)
        ensures
            created.value < 0 ==> r is Err && r->Err_0 == Error::Os(created.errno),
            created.value >= 0 ==> r is Ok && r->Ok_0.selector().handle() == created.value,
    {
        match S::new(created) {
            Ok(selector) => Ok(
                Poll { registry: Registry { selector }, is_poll_dead: shutdown::new_flag() },
            ),
            Err(e) => Err(e),
        }
    }

    /// A handle for other threads, on this poll's queue and shutdown flag.
    pub fn registrator(&self) -> (r: S::Registrator)
        ensures
            S::serves(&r) == self.selector().handle(),
    {
        self.registry.selector.registrator(shutdown::share(&self.is_poll_dead))
    }

    /// The descriptor to close when the poll is given up.
    pub fn raw_fd(&self) -> (fd: i32)
        ensures
            fd == self.selector().handle(),
    {
        self.registry.selector.raw_fd()
    }

    /// Reads the return of the call that closed the queue, when the poll is
    /// given up. On `Err` the caller aborts; `unwinding` says that it is
    /// failing already.
    pub fn release(&self, closed: SysReturn, unwinding: bool) -> (r: Result<(), Error>)
        ensures
            r == release_outcome(closed, unwinding),
    {
        self.registry.selector.release(closed, unwinding)
    }

    /// Starts a poll: empties `events` and describes the wait call to make.
    pub fn poll(&mut self, events: &mut Vec<S::Event>, timeout_ms: Option<i32>) -> (w: S::Wait)
        ensures
            final(self).selector() == old(self).selector(),
            final(events)@ == Seq::<S::Event>::empty(),
            exists|capacity: usize|
                w@ == old(self).selector().wait_call(capacity, poll_timeout(timeout_ms)),
    {
        let timeout = match timeout_ms {
            None => None,
            Some(n) => Some(if n < 0 { 0 } else { n }),
        };
        let w = self.registry.selector.select(events, timeout);
        proof {
            let capacity = choose|capacity: usize|
                w@ == self.selector().wait_call(capacity, timeout);
            assert(w@ == self.selector().wait_call(capacity, poll_timeout(timeout_ms)));
        }
        w
    }

    /// Goes on with a poll once its wait call has returned.
    ///
    /// The shutdown flag is read after a wait that succeeded. Another thread
    /// may set it at any moment, so the step is the one for one of its two
    /// values.
    pub fn resume(
        &mut self,
        events: &mut Vec<S::Event>,
        waited: SysReturn,
        delivered: Vec<S::Event>,
    ) -> (step: PollStep)
        ensures
            final(self).selector() == old(self).selector(),
            final(events)@ == delivery(old(events)@, waited, delivered@),
            step == poll_step(selection(waited, final(events)@.len()), true) || step == poll_step(
                selection(waited, final(events)@.len()),
                false,
            ),
    {
        match self.registry.selector.selected(events, waited, delivered) {
            Err(e) => PollStep::after(Err(e), false),
            Ok(()) => {
                let closed = shutdown::is_set(&self.is_poll_dead);
                PollStep::after(Ok(events.len()), closed)
            },
        }
    }
}

impl PollStep {
    /// The step after a wait that ended as `selected`, for a shutdown flag
    /// that reads `closed`.
    pub fn after(selected: Result<usize, Error>, closed: bool) -> (step: PollStep)
        ensures
            step == poll_step(selected, closed),
    {
        match selected {
            Err(e) => if e.is_interrupted() {
                PollStep::Retry
            } else {
                PollStep::Done(Err(e))
            },
            Ok(n) => if closed {
                PollStep::Done(Err(Error::Closed))
            } else {
                PollStep::Done(Ok(n))
            },
        }
    }
}

} // verus!
