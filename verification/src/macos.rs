//! The kqueue backend.
use crate::buffer_limit;
use crate::Backend;
use crate::Error;
use crate::Interests;
use crate::SysReturn;
use crate::Token;
use std::sync::atomic::AtomicBool;
use std::sync::Arc;
use vstd::prelude::*;

verus! {

pub const EVFILT_READ: i16 = -1;

pub const EVFILT_TIMER: i16 = -7;

pub const EV_ADD: u16 = 0x1;

pub const EV_ENABLE: u16 = 0x4;

pub const EV_ONESHOT: u16 = 0x10;

/// A time span as the kernel takes it: whole seconds and the nanoseconds
/// beyond them.
#[derive(Debug, Clone, Copy, PartialEq, Eq, Structural)]
pub struct Timespec {
    pub tv_sec: isize,
    pub v_nsec: usize,
}

impl Timespec {
    /// The span of `milliseconds`, a negative number counted as zero.
    pub open spec fn of_millis(milliseconds: i32) -> Timespec {
        let ms: int = if milliseconds < 0 {
            0
        } else {
            milliseconds as int
        };
        Timespec { tv_sec: (ms / 1000) as isize, v_nsec: ((ms % 1000) * 1_000_000) as usize }
    }

    /// The span in nanoseconds.
    pub open spec fn nanos(self) -> int {
        self.tv_sec * 1_000_000_000 + self.v_nsec
    }

    pub fn from_millis(milliseconds: i32) -> (r: Self)
        ensures
            r == Self::of_millis(milliseconds),
            r.v_nsec < 1_000_000_000,
            milliseconds >= 0 ==> r.nanos() == milliseconds * 1_000_000,
            milliseconds < 0 ==> r.nanos() == 0,
    {
        let ms: i32 = if milliseconds < 0 {
            0
        } else {
            milliseconds
        };
        let seconds: i32 = ms / 1000;
        let nanoseconds: i32 = (ms % 1000) * 1000 * 1000;
        Timespec { tv_sec: seconds as isize, v_nsec: nanoseconds as usize }
    }
}

/// One kqueue record. Handed to the kernel it describes a change to make,
/// handed back it describes an event that occurred.
#[derive(Debug, Clone, Copy, PartialEq, Eq, Structural)]
pub struct Kevent {
    pub ident: u64,
    pub filter: i16,
    pub flags: u16,
    pub fflags: u32,
    pub data: i64,
    pub udata: u64,
}

pub type Event = Kevent;

/// The buffer that a wait delivers its events into.
pub type Events = Vec<Event>;

/// The record that enrolls source `fd` for one readable event under `id`:
/// once the event has fired, the kernel drops the interest.
pub open spec fn read_once(fd: i32, id: u64) -> Kevent {
    Kevent { ident: fd as u64, filter: EVFILT_READ, flags: 0x15, fflags: 0, data: 0, udata: id }
}

/// The record that arms a one-shot timer which expires at once, under token
/// zero.
pub open spec fn wake() -> Kevent {
    Kevent { ident: 0, filter: EVFILT_TIMER, flags: 0x15, fflags: 0, data: 0, udata: 0 }
}

impl Event {
    pub fn new_read_event(fd: i32, id: u64) -> (r: Self)
        ensures
            r == read_once(fd, id),
    {
        assert(EV_ADD | EV_ENABLE | EV_ONESHOT == 0x15u16) by (bit_vector);
        Event {
            ident: fd as u64,
            filter: EVFILT_READ,
            flags: EV_ADD | EV_ENABLE | EV_ONESHOT,
            fflags: 0,
            data: 0,
            udata: id,
        }
    }

    pub fn new_wakeup_event() -> (r: Self)
        ensures
            r == wake(),
    {
        assert(EV_ADD | EV_ENABLE | EV_ONESHOT == 0x15u16) by (bit_vector);
        Event {
            ident: 0,
            filter: EVFILT_TIMER,
            flags: EV_ADD | EV_ENABLE | EV_ONESHOT,
            fflags: 0,
            data: 0,
            udata: 0,
        }
    }

    pub fn zero() -> (r: Self)
        ensures
            r == (Kevent { ident: 0, filter: 0, flags: 0, fflags: 0, data: 0, udata: 0 }),
    {
        Event { ident: 0, filter: 0, flags: 0, fflags: 0, data: 0, udata: 0 }
    }

    /// The token that the event was registered with.
    pub fn id(&self) -> (r: Token)
        ensures
            r == self.udata as usize,
    {
        self.udata as usize
    }
}

/// The default record is the one with every field zero.
impl Default for Kevent {
    fn default() -> (r: Self)
        ensures
            r == (Kevent { ident: 0, filter: 0, flags: 0, fflags: 0, data: 0, udata: 0 }),
    {
        Kevent::zero()
    }
}

impl Kevent {
    pub fn token(&self) -> (r: Option<Token>)
        ensures
            r == Some(self.udata as usize),
    {
        Some(self.udata as usize)
    }
}

/// A `kevent` call to make: the changes to submit, how many records the
/// call may deliver, and how long it may wait (`None`: no timeout).
#[derive(Debug, PartialEq, Eq)]
pub struct KeventCall {
    pub kq: i32,
    pub changelist: Vec<Kevent>,
    pub nchanges: i32,
    pub nevents: i32,
    pub timeout: Option<Timespec>,
}

/// A `kevent` call as a value: the changes as a sequence.
pub struct KeventCallView {
    pub kq: i32,
    pub changelist: Seq<Kevent>,
    pub nchanges: i32,
    pub nevents: i32,
    pub timeout: Option<Timespec>,
}

impl View for KeventCall {
    type V = KeventCallView;

    open spec fn view(&self) -> KeventCallView {
        KeventCallView {
            kq: self.kq,
            changelist: self.changelist@,
            nchanges: self.nchanges,
            nevents: self.nevents,
            timeout: self.timeout,
        }
    }
}

/// The time span that `kevent` is called with, where a timeout was given.
pub open spec fn kevent_timeout(timeout_ms: Option<i32>) -> Option<Timespec> {
    match timeout_ms {
        None => None,
        Some(n) => Some(Timespec::of_millis(n)),
    }
}

/// The call that submits `changes` to queue `kq` and asks for at most
/// `n_events` records.
pub open spec fn kevent_call(
    kq: i32,
    changes: Seq<Kevent>,
    n_events: i32,
    timeout_ms: Option<i32>,
) -> KeventCallView {
    KeventCallView {
        kq,
        changelist: changes,
        nchanges: changes.len() as i32,
        nevents: n_events,
        timeout: kevent_timeout(timeout_ms),
    }
}

impl KeventCall {
    /// Describes the call that submits `cl` and asks for at most `n_events`
    /// records. The kernel counts the changes in an `i32`.
    pub fn new(kq: i32, cl: Vec<Kevent>, n_events: i32, timeout_ms: Option<i32>) -> (r: Self)
        requires
            cl@.len() <= i32::MAX,
        ensures
            r@ == kevent_call(kq, cl@, n_events, timeout_ms),
    {
        let nchanges = cl.len() as i32;
        let timeout = match timeout_ms {
            None => None,
            Some(n) => Some(Timespec::from_millis(n)),
        };
        KeventCall { kq, changelist: cl, nchanges, nevents: n_events, timeout }
    }
}

/// A registration under way: the call that enrolls the source, where one is
/// due, and whether the writable direction was asked for as well.
#[derive(Debug, PartialEq, Eq)]
pub struct Registration {
    pub submit: Option<KeventCall>,
    pub writable: bool,
}

/// A registration under way, as a value.
pub struct RegistrationView {
    pub submit: Option<KeventCallView>,
    pub writable: bool,
}

impl View for Registration {
    type V = RegistrationView;

    open spec fn view(&self) -> RegistrationView {
        RegistrationView {
            submit: match self.submit {
                None => None,
                Some(call) => Some(call@),
            },
            writable: self.writable,
        }
    }
}

impl Registration {
    /// How a registration ends, given what the enrolling call returned
    /// (`None` where none was made): a failed call is reported first, then
    /// the direction that cannot be served.
    pub open spec fn outcome(self, submitted: Option<SysReturn>) -> Result<(), Error> {
        if submitted is Some && submitted->0.value < 0 {
            Err(Error::Os(submitted->0.errno))
        } else if self.writable {
            Err(Error::Unimplemented)
        } else {
            Ok(())
        }
    }

    pub fn finish(&self, submitted: Option<SysReturn>) -> (r: Result<(), Error>)
        ensures
            r == self.outcome(submitted),
    {
        if let Some(returned) = submitted {
            kevent(returned)?;
        }
        if self.writable {
            return Err(Error::Unimplemented);
        }
        Ok(())
    }
}

/// A handle for enrolling sources in a queue and for ending its polling
/// loop, from any thread.
#[derive(Debug)]
pub struct Registrator {
    kq: i32,
    is_poll_dead: Arc<AtomicBool>,
}

impl Registrator {
    /// The queue that this handle enrolls sources in.
    pub closed spec fn queue(&self) -> i32 {
        self.kq
    }

    /// What a registration amounts to when the shutdown flag reads `closed`.
    pub open spec fn registration(
        queue: i32,
        closed: bool,
        fd: i32,
        token: Token,
        interests: Interests,
    ) -> Result<RegistrationView, Error> {
        if closed {
            Err(Error::Closed)
        } else {
            Ok(
                RegistrationView {
                    submit: if interests.wants_read() {
                        Some(kevent_call(queue, seq![read_once(fd, token as u64)], 0, None))
                    } else {
                        None
                    },
                    writable: interests.wants_write(),
                },
            )
        }
    }

    /// The start of a registration as a value.
    pub open spec fn started(r: Result<Registration, Error>) -> Result<RegistrationView, Error> {
        match r {
            Ok(registration) => Ok(registration@),
            Err(e) => Err(e),
        }
    }

    /// Starts the registration of source `fd` under `token`.
    ///
    /// The shutdown flag is read once. Another thread may set it at any
    /// moment, so the result is the registration for one of its two values.
    pub fn register(&self, fd: i32, token: usize, interests: Interests) -> (r: Result<
        Registration,
        Error,
    >)
        ensures
            Self::started(r) == Self::registration(self.queue(), true, fd, token, interests)
                || Self::started(r) == Self::registration(
                self.queue(),
                false,
                fd,
                token,
                interests,
            ),
    {
        let closed = crate::shutdown::is_set(&self.is_poll_dead);
        self.register_given(closed, fd, token, interests)
    }

    /// The registration of source `fd` under `token`, for a shutdown flag
    /// that reads `closed`.
    pub fn register_given(&self, closed: bool, fd: i32, token: usize, interests: Interests) -> (r:
        Result<Registration, Error>)
        ensures
            Self::started(r) == Self::registration(self.queue(), closed, fd, token, interests),
    {
        if closed {
            return Err(Error::Closed);
        }
        let mut submit: Option<KeventCall> = None;
        if interests.is_readable() {
            let event = Event::new_read_event(fd, token as u64);
            let mut changes: Vec<Kevent> = Vec::new();
            changes.push(event);
            submit = Some(KeventCall::new(self.kq, changes, 0, None));
        }
        Ok(Registration { submit, writable: interests.is_writable() })
    }

    /// What ending the polling loop amounts to for a caller that found the
    /// shutdown flag at `was_closed` when it set it: the first caller has a
    /// timer armed that expires at once, every later one is refused.
    pub open spec fn shutdown(queue: i32, was_closed: bool) -> Result<KeventCallView, Error> {
        if was_closed {
            Err(Error::Closed)
        } else {
            Ok(kevent_call(queue, seq![wake()], 0, None))
        }
    }

    /// The start of a shutdown as a value.
    pub open spec fn requested(r: Result<KeventCall, Error>) -> Result<KeventCallView, Error> {
        match r {
            Ok(call) => Ok(call@),
            Err(e) => Err(e),
        }
    }

    /// Requests the end of the polling loop.
    ///
    /// The shutdown flag is set in one atomic step, which also tells whether
    /// it was set before; about that no promise can be made here, so the
    /// result is the one for one of the two answers.
    pub fn close_loop(&self) -> (r: Result<KeventCall, Error>)
        ensures
            Self::requested(r) == Self::shutdown(self.queue(), true) || Self::requested(r)
                == Self::shutdown(self.queue(), false),
    {
        let was_closed = crate::shutdown::set_once(&self.is_poll_dead);
        self.close_loop_given(was_closed)
    }

    /// The end of the polling loop as requested by a caller that found the
    /// shutdown flag at `was_closed`.
    pub fn close_loop_given(&self, was_closed: bool) -> (r: Result<KeventCall, Error>)
        ensures
            Self::requested(r) == Self::shutdown(self.queue(), was_closed),
    {
        if was_closed {
            return Err(Error::Closed);
        }
        let event = Event::new_wakeup_event();
        let mut changes: Vec<Kevent> = Vec::new();
        changes.push(event);
        Ok(KeventCall::new(self.kq, changes, 0, None))
    }
}

/// A clone enrolls sources in the same queue and shares the shutdown flag.
impl Clone for Registrator {
    fn clone(&self) -> (r: Self)
        ensures
            r.queue() == self.queue(),
    {
        let is_poll_dead = crate::shutdown::share(&self.is_poll_dead);
        Registrator { kq: self.kq, is_poll_dead }
    }
}

/// Owner of one kqueue.
#[derive(Debug)]
pub struct Selector {
    kq: i32,
}

impl Selector {
    /// The wait call on this queue for a buffer of `capacity` records.
    pub fn wait(&self, capacity: usize, timeout_ms: Option<i32>) -> (w: KeventCall)
        ensures
            w@ == self.wait_call(capacity, timeout_ms),
    {
        let n_events = crate::limit_of(capacity);
        KeventCall::new(self.kq, Vec::new(), n_events, timeout_ms)
    }
}

impl Backend for Selector {
    type Event = Event;

    type Wait = KeventCall;

    type Registrator = Registrator;

    closed spec fn handle(&self) -> i32 {
        self.kq
    }

    open spec fn wait_call(&self, capacity: usize, timeout_ms: Option<i32>) -> KeventCallView {
        kevent_call(self.handle(), Seq::empty(), buffer_limit(capacity), timeout_ms)
    }

    open spec fn serves(registrator: &Registrator) -> i32 {
        registrator.queue()
    }

    fn new(created: SysReturn) -> (r: Result<Self, Error>) {
        Ok(Selector { kq: kqueue(created)? })
    }

    fn select(&self, events: &mut Vec<Event>, timeout_ms: Option<i32>) -> (w: KeventCall) {
        let capacity = crate::capacity_of(events);
        events.clear();
        self.wait(capacity, timeout_ms)
    }

    fn selected(&self, events: &mut Vec<Event>, waited: SysReturn, delivered: Vec<Event>) -> (r:
        Result<(), Error>) {
        let n_events = kevent(waited)?;
        let mut kept = delivered;
        kept.truncate(n_events);
        events.clear();
        events.append(&mut kept);
        Ok(())
    }

    fn registrator(&self, is_poll_dead: Arc<AtomicBool>) -> (r: Registrator) {
        Registrator { kq: self.kq, is_poll_dead }
    }

    fn raw_fd(&self) -> (fd: i32) {
        self.kq
    }

    fn release(&self, closed: SysReturn, unwinding: bool) -> (r: Result<(), Error>) {
        match close(closed) {
            Ok(()) => Ok(()),
            Err(e) => if unwinding {
                Ok(())
            } else {
                Err(e)
            },
        }
    }
}

/// Shutdown is single-use: once a request has succeeded the flag is set, and
/// a request that finds it set is refused, so that no second timer is
/// armed.
pub proof fn lemma_second_close_refused(flag: bool, queue: i32)
    requires
        Registrator::shutdown(queue, flag) is Ok,
    ensures
        Registrator::shutdown(queue, crate::shutdown::after_set_once(flag)) == Err::<
            KeventCallView,
            Error,
        >(Error::Closed),
{
}

/// Once a shutdown request has succeeded, a registration by any handle is
/// refused as closed, and with it goes no call for the kernel.
pub proof fn lemma_register_after_close_refused(
    flag: bool,
    queue: i32,
    fd: i32,
    token: Token,
    interests: Interests,
)
    requires
        Registrator::shutdown(queue, flag) is Ok,
    ensures
        Registrator::registration(
            queue,
            crate::shutdown::after_set_once(flag),
            fd,
            token,
            interests,
        ) == Err::<RegistrationView, Error>(Error::Closed),
{
}

/// A poll hands its timeout on to the kernel as it was given: a number of
/// milliseconds that is not negative as a span of as many nanoseconds, with
/// less than a second of them beside the whole seconds, and none as no span.
pub proof fn lemma_poll_timeout_reaches_the_kernel(timeout_ms: Option<i32>)
    requires
        timeout_ms matches Some(n) ==> n >= 0,
    ensures
        timeout_ms matches Some(n) ==> kevent_timeout(crate::poll_timeout(timeout_ms)) matches Some(
            span,
        ) && span.nanos() == n * 1_000_000 && 0 <= span.tv_sec && span.v_nsec < 1_000_000_000,
        timeout_ms is None ==> kevent_timeout(crate::poll_timeout(timeout_ms)) is None,
{
}

/// While the reactor is open, a registration for the readable direction
/// submits exactly one change, which is one-shot and carries the token, and
/// an event that carries the same data word gives the token back.
pub proof fn lemma_read_registration_one_shot(
    queue: i32,
    fd: i32,
    token: Token,
    interests: Interests,
)
    requires
        interests.wants_read(),
    ensures
        Registrator::registration(queue, false, fd, token, interests) matches Ok(registration)
            && registration.submit matches Some(call) && call.kq == queue && call.nchanges == 1
            && call.changelist.len() == 1 && call.changelist[0].flags & EV_ONESHOT != 0
            && call.changelist[0].filter == EVFILT_READ && call.changelist[0].udata as usize
            == token,
{
    assert(0x15u16 & 0x10 != 0) by (bit_vector);
}

/// Reads the return of `kqueue`: the descriptor of the new queue.
pub fn kqueue(returned: SysReturn) -> (r: Result<i32, Error>)
    ensures
        r == returned.checked(),
{
    returned.check()
}

/// Reads the return of `kevent`: the number of records delivered.
pub fn kevent(returned: SysReturn) -> (r: Result<usize, Error>)
    ensures
        returned.value < 0 ==> r == Err::<usize, Error>(Error::Os(returned.errno)),
        returned.value >= 0 ==> r == Ok::<usize, Error>(returned.value as usize),
{
    match returned.check() {
        Ok(n) => Ok(n as usize),
        Err(e) => Err(e),
    }
}

/// Reads the return of `close`.
pub fn close(returned: SysReturn) -> (r: Result<(), Error>)
    ensures
        returned.value < 0 ==> r == Err::<(), Error>(Error::Os(returned.errno)),
        returned.value >= 0 ==> r == Ok::<(), Error>(()),
{
    match returned.check() {
        Ok(_) => Ok(()),
        Err(e) => Err(e),
    }
}

} // verus!
