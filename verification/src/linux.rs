//! The epoll backend.
use crate::buffer_limit;
use crate::Backend;
use crate::Error;
use crate::Interests;
use crate::SysReturn;
use crate::Token;
use std::sync::atomic::AtomicBool;
use std::sync::Arc;
use vstd::prelude::*;

verus! {

/// The size hint that `epoll_create` is called with. The kernel ignores it
/// but refuses zero.
pub const EPOLL_SIZE_HINT: i32 = 1;

pub const EPOLL_CTL_ADD: i32 = 1;

pub const EPOLLIN: i32 = 0x1;

pub const EPOLLONESHOT: i32 = 0x40000000;

/// One epoll event record: the readiness bits, and the caller's data word.
#[derive(Debug, Clone, Copy, PartialEq, Eq, Structural)]
pub struct Event {
    pub events: u32,
    pub epoll_data: usize,
}

impl Event {
    pub fn new(events: i32, id: usize) -> (r: Self)
        ensures
            r == (Event { events: events as u32, epoll_data: id }),
    {
        Event { events: events as u32, epoll_data: id }
    }

    pub fn data(&self) -> (r: usize)
        ensures
            r == self.epoll_data,
    {
        self.epoll_data
    }

    /// The token that the event was registered with.
    pub fn id(&self) -> (r: Token)
        ensures
            r == self.epoll_data,
    {
        self.data()
    }
}

/// The buffer that a wait delivers its events into.
pub type Events = Vec<Event>;

/// The record that enrolls a source for one readable event: once the event
/// has fired, the kernel drops the interest.
pub open spec fn read_once(token: Token) -> Event {
    Event { events: 0x4000_0001, epoll_data: token }
}

/// The record that enrolls the wake-up source: readable, under token zero.
pub open spec fn wake() -> Event {
    Event { events: 0x1, epoll_data: 0 }
}

/// An `epoll_ctl` call to make: operation `op` on source `fd` of queue `epfd`,
/// with `event` as the record handed in.
#[derive(Debug, Clone, Copy, PartialEq, Eq, Structural)]
pub struct EpollCtl {
    pub epfd: i32,
    pub op: i32,
    pub fd: i32,
    pub event: Event,
}

/// An `epoll_wait` call to make: at most `maxevents` records, after at most
/// `timeout` milliseconds (`-1`: no timeout).
#[derive(Debug, Clone, Copy, PartialEq, Eq, Structural)]
pub struct EpollWait {
    pub epfd: i32,
    pub maxevents: i32,
    pub timeout: i32,
}

impl View for EpollWait {
    type V = EpollWait;

    open spec fn view(&self) -> EpollWait {
        *self
    }
}

/// An `eventfd` call to make.
#[derive(Debug, Clone, Copy, PartialEq, Eq, Structural)]
pub struct Eventfd {
    pub initval: u32,
    pub flags: i32,
}

/// The timeout that `epoll_wait` is called with: `-1` where none was given,
/// and a negative one counted as zero.
pub open spec fn epoll_timeout(timeout_ms: Option<i32>) -> i32 {
    match timeout_ms {
        None => -1i32,
        Some(n) => if n < 0 {
            0
        } else {
            n
        },
    }
}

/// A registration under way: the call that enrolls the source, where one is
/// due, and whether the writable direction was asked for as well.
#[derive(Debug, Clone, Copy, PartialEq, Eq, Structural)]
pub struct Registration {
    pub submit: Option<EpollCtl>,
    pub writable: bool,
}

impl Registration {
    /// How a registration ends, given what the enrolling call returned
    /// (`None` where none was made): a failed call is reported first, then
    /// the direction that cannot be served.
    pub open spec fn outcome(self, submitted: Option<SysReturn>) -> Result<(), Error> {
        if submitted is Some && submitted->0.value < 0 {
            Err(Error::Os(submitted->0.errno))
        } else if self.writable {
            Err(Error::Unimplemented)
        } else {
            Ok(())
        }
    }

    pub fn finish(&self, submitted: Option<SysReturn>) -> (r: Result<(), Error>)
        ensures
            r == self.outcome(submitted),
    {
        if let Some(returned) = submitted {
            epoll_ctl(returned)?;
        }
        if self.writable {
            return Err(Error::Unimplemented);
        }
        Ok(())
    }
}

/// A handle for enrolling sources in a queue and for ending its polling
/// loop, from any thread.
#[derive(Debug)]
pub struct Registrator {
    epoll_fd: i32,
    is_poll_dead: Arc<AtomicBool>,
}

impl Registrator {
    /// The queue that this handle enrolls sources in.
    pub closed spec fn queue(&self) -> i32 {
        self.epoll_fd
    }

    /// What a registration amounts to when the shutdown flag reads `closed`.
    pub open spec fn registration(
        queue: i32,
        closed: bool,
        fd: i32,
        token: Token,
        interests: Interests,
    ) -> Result<Registration, Error> {
        if closed {
            Err(Error::Closed)
        } else {
            Ok(
                Registration {
                    submit: if interests.wants_read() {
                        Some(
                            EpollCtl {
                                epfd: queue,
                                op: EPOLL_CTL_ADD,
                                fd,
                                event: read_once(token),
                            },
                        )
                    } else {
                        None
                    },
                    writable: interests.wants_write(),
                },
            )
        }
    }

    /// Starts the registration of source `fd` under `token`.
    ///
    /// The shutdown flag is read once. Another thread may set it at any
    /// moment, so the result is the registration for one of its two values.
    pub fn register(&self, fd: i32, token: usize, interests: Interests) -> (r: Result<
        Registration,
        Error,
    >)
        ensures
            r == Self::registration(self.queue(), true, fd, token, interests) || r
                == Self::registration(self.queue(), false, fd, token, interests),
    {
        let closed = crate::shutdown::is_set(&self.is_poll_dead);
        self.register_given(closed, fd, token, interests)
    }

    /// The registration of source `fd` under `token`, for a shutdown flag
    /// that reads `closed`.
    pub fn register_given(&self, closed: bool, fd: i32, token: usize, interests: Interests) -> (r:
        Result<Registration, Error>)
        ensures
            r == Self::registration(self.queue(), closed, fd, token, interests),
    {
        if closed {
            return Err(Error::Closed);
        }
        let mut submit: Option<EpollCtl> = None;
        if interests.is_readable() {
            assert((EPOLLIN | EPOLLONESHOT) as u32 == 0x4000_0001u32) by (bit_vector);
            let event = Event::new(EPOLLIN | EPOLLONESHOT, token);
            submit = Some(EpollCtl { epfd: self.epoll_fd, op: EPOLL_CTL_ADD, fd, event });
        }
        Ok(Registration { submit, writable: interests.is_writable() })
    }

    /// What ending the polling loop amounts to for a caller that found the
    /// shutdown flag at `was_closed` when it set it: the first caller has a
    /// source made that is readable from the start, every later one is
    /// refused.
    pub open spec fn shutdown(was_closed: bool) -> Result<Eventfd, Error> {
        if was_closed {
            Err(Error::Closed)
        } else {
            Ok(Eventfd { initval: 1, flags: 0 })
        }
    }

    /// Requests the end of the polling loop.
    ///
    /// The shutdown flag is set in one atomic step, which also tells whether
    /// it was set before; about that no promise can be made here, so the
    /// result is the one for one of the two answers.
    pub fn close_loop(&self) -> (r: Result<Eventfd, Error>)
        ensures
            r == Self::shutdown(true) || r == Self::shutdown(false),
    {
        let was_closed = crate::shutdown::set_once(&self.is_poll_dead);
        Self::close_loop_given(was_closed)
    }

    /// The end of the polling loop as requested by a caller that found the
    /// shutdown flag at `was_closed`.
    pub fn close_loop_given(was_closed: bool) -> (r: Result<Eventfd, Error>)
        ensures
            r == Self::shutdown(was_closed),
    {
        if was_closed {
            return Err(Error::Closed);
        }
        Ok(Eventfd { initval: 1, flags: 0 })
    }

    /// The call that wakes the polling loop, given what making the wake-up
    /// source returned.
    pub open spec fn waking(queue: i32, made: SysReturn) -> Result<EpollCtl, Error> {
        if made.value < 0 {
            Err(Error::Os(made.errno))
        } else {
            Ok(EpollCtl { epfd: queue, op: EPOLL_CTL_ADD, fd: made.value, event: wake() })
        }
    }

    /// Goes on with a shutdown once the wake-up source has been made: the
    /// source is enrolled in the queue, where it is ready at once.
    pub fn wakeup(&self, made: SysReturn) -> (r: Result<EpollCtl, Error>)
        ensures
            r == Self::waking(self.queue(), made),
    {
        let wake_fd = eventfd(made)?;
        assert(EPOLLIN as u32 == 0x1u32) by (bit_vector);
        let event = Event::new(EPOLLIN, 0);
        Ok(EpollCtl { epfd: self.epoll_fd, op: EPOLL_CTL_ADD, fd: wake_fd, event })
    }
}

/// A clone enrolls sources in the same queue and shares the shutdown flag.
impl Clone for Registrator {
    fn clone(&self) -> (r: Self)
        ensures
            r.queue() == self.queue(),
    {
        let is_poll_dead = crate::shutdown::share(&self.is_poll_dead);
        Registrator { epoll_fd: self.epoll_fd, is_poll_dead }
    }
}

/// Owner of one epoll queue.
#[derive(Debug)]
pub struct Selector {
    epoll_fd: i32,
}

impl Selector {
    /// The wait call on this queue for a buffer of `capacity` records.
    pub fn wait(&self, capacity: usize, timeout_ms: Option<i32>) -> (w: EpollWait)
        ensures
            w == self.wait_call(capacity, timeout_ms),
    {
        let timeout = match timeout_ms {
            None => -1,
            Some(n) => if n < 0 {
                0
            } else {
                n
            },
        };
        EpollWait { epfd: self.epoll_fd, maxevents: crate::limit_of(capacity), timeout }
    }
}

impl Backend for Selector {
    type Event = Event;

    type Wait = EpollWait;

    type Registrator = Registrator;

    closed spec fn handle(&self) -> i32 {
        self.epoll_fd
    }

    open spec fn wait_call(&self, capacity: usize, timeout_ms: Option<i32>) -> EpollWait {
        EpollWait {
            epfd: self.handle(),
            maxevents: buffer_limit(capacity),
            timeout: epoll_timeout(timeout_ms),
        }
    }

    open spec fn serves(registrator: &Registrator) -> i32 {
        registrator.queue()
    }

    fn new(created: SysReturn) -> (r: Result<Self, Error>) {
        Ok(Selector { epoll_fd: epoll_create(created)? })
    }

    fn select(&self, events: &mut Vec<Event>, timeout_ms: Option<i32>) -> (w: EpollWait) {
        events.clear();
        let capacity = crate::capacity_of(events);
        self.wait(capacity, timeout_ms)
    }

    fn selected(&self, events: &mut Vec<Event>, waited: SysReturn, delivered: Vec<Event>) -> (r:
        Result<(), Error>) {
        let n_events = epoll_wait(waited)?;
        let mut kept = delivered;
        kept.truncate(n_events as usize);
        events.clear();
        events.append(&mut kept);
        Ok(())
    }

    fn registrator(&self, is_poll_dead: Arc<AtomicBool>) -> (r: Registrator) {
        Registrator { epoll_fd: self.epoll_fd, is_poll_dead }
    }

    fn raw_fd(&self) -> (fd: i32) {
        self.epoll_fd
    }

    fn release(&self, closed: SysReturn, unwinding: bool) -> (r: Result<(), Error>) {
        match close(closed) {
            Ok(()) => Ok(()),
            Err(e) => if unwinding {
                Ok(())
            } else {
                Err(e)
            },
        }
    }
}

/// Shutdown is single-use: once a request has succeeded the flag is set, and
/// a request that finds it set is refused, so that no second wake-up source
/// is made.
pub proof fn lemma_second_close_refused(flag: bool)
    requires
        Registrator::shutdown(flag) is Ok,
    ensures
        Registrator::shutdown(crate::shutdown::after_set_once(flag)) == Err::<Eventfd, Error>(
            Error::Closed,
        ),
{
}

/// Once a shutdown request has succeeded, a registration by any handle is
/// refused as closed, and with it goes no call for the kernel.
pub proof fn lemma_register_after_close_refused(
    flag: bool,
    queue: i32,
    fd: i32,
    token: Token,
    interests: Interests,
)
    requires
        Registrator::shutdown(flag) is Ok,
    ensures
        Registrator::registration(
            queue,
            crate::shutdown::after_set_once(flag),
            fd,
            token,
            interests,
        ) == Err::<Registration, Error>(Error::Closed),
{
}

/// A poll hands its timeout on to the kernel as it was given: a number of
/// milliseconds that is not negative unchanged, and none as the kernel's
/// word for waiting without limit.
pub proof fn lemma_poll_timeout_reaches_the_kernel(timeout_ms: Option<i32>)
    requires
        timeout_ms matches Some(n) ==> n >= 0,
    ensures
        timeout_ms matches Some(n) ==> epoll_timeout(crate::poll_timeout(timeout_ms)) == n,
        timeout_ms is None ==> epoll_timeout(crate::poll_timeout(timeout_ms)) == -1,
{
}

/// While the reactor is open, a registration for the readable direction
/// asks for exactly one enrolment, which is one-shot and carries the token,
/// and an event that carries the same data word gives the token back.
pub proof fn lemma_read_registration_one_shot(
    queue: i32,
    fd: i32,
    token: Token,
    interests: Interests,
)
    requires
        interests.wants_read(),
    ensures
        Registrator::registration(queue, false, fd, token, interests) matches Ok(registration)
            && registration.submit matches Some(call) && call.epfd == queue && call.fd == fd
            && call.op == EPOLL_CTL_ADD && call.event.events & 0x4000_0000 != 0
            && call.event.epoll_data == token,
{
    assert(0x4000_0001u32 & 0x4000_0000 != 0) by (bit_vector);
}

/// Reads the return of `epoll_create`: the descriptor of the new queue.
pub fn epoll_create(returned: SysReturn) -> (r: Result<i32, Error>)
    ensures
        r == returned.checked(),
{
    returned.check()
}

/// Reads the return of `epoll_ctl`.
pub fn epoll_ctl(returned: SysReturn) -> (r: Result<(), Error>)
    ensures
        returned.value < 0 ==> r == Err::<(), Error>(Error::Os(returned.errno)),
        returned.value >= 0 ==> r == Ok::<(), Error>(()),
{
    match returned.check() {
        Ok(_) => Ok(()),
        Err(e) => Err(e),
    }
}

/// Reads the return of `epoll_wait`: the number of records delivered.
pub fn epoll_wait(returned: SysReturn) -> (r: Result<i32, Error>)
    ensures
        r == returned.checked(),
{
    returned.check()
}

/// Reads the return of `eventfd`: the descriptor of the new source.
pub fn eventfd(returned: SysReturn) -> (r: Result<i32, Error>)
    ensures
        r == returned.checked(),
{
    returned.check()
}

/// Reads the return of `close`.
pub fn close(returned: SysReturn) -> (r: Result<(), Error>)
    ensures
        returned.value < 0 ==> r == Err::<(), Error>(Error::Os(returned.errno)),
        returned.value >= 0 ==> r == Ok::<(), Error>(()),
{
    match returned.check() {
        Ok(_) => Ok(()),
        Err(e) => Err(e),
    }
}

} // verus!
