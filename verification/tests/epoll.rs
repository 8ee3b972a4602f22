use tinymio::linux::close;
use tinymio::linux::epoll_create;
use tinymio::linux::epoll_ctl;
use tinymio::linux::epoll_wait;
use tinymio::linux::eventfd;
use tinymio::linux::EpollCtl;
use tinymio::linux::EpollWait;
use tinymio::linux::Event;
use tinymio::linux::Eventfd;
use tinymio::linux::Events;
use tinymio::linux::Registration;
use tinymio::linux::Registrator;
use tinymio::linux::Selector;
use tinymio::linux::EPOLLIN;
use tinymio::linux::EPOLLONESHOT;
use tinymio::linux::EPOLL_CTL_ADD;
use tinymio::linux::EPOLL_SIZE_HINT;
use std::sync::atomic::AtomicBool;
use std::sync::atomic::Ordering;
use std::sync::Arc;
use tinymio::Backend;
use tinymio::Error;
use tinymio::Interests;
use tinymio::SysReturn;

fn returned(value: i32, errno: i32) -> SysReturn {
    SysReturn { value, errno }
}

fn selector(fd: i32) -> Selector {
    Selector::new(returned(fd, 0)).unwrap()
}

fn new_flag() -> Arc<AtomicBool> {
    Arc::new(AtomicBool::new(false))
}

fn send_and_clone<T: Send + Sync + Clone>(_: &T) {}

#[test]
fn epoll_event_keeps_bits_and_data() {
    let event = Event::new(EPOLLIN | EPOLLONESHOT, 42);
    assert_eq!(event.events, 0x4000_0001);
    assert_eq!(event.data(), 42);
    assert_eq!(event.id(), 42);
    assert_eq!(Event::new(-1, usize::MAX), Event { events: u32::MAX, epoll_data: usize::MAX });
}

#[test]
fn epoll_constants() {
    assert_eq!(EPOLL_SIZE_HINT, 1);
    assert_eq!(EPOLL_CTL_ADD, 1);
    assert_eq!(EPOLLIN, 0x1);
    assert_eq!(EPOLLONESHOT, 0x4000_0000);
}

#[test]
fn epoll_returns_are_read_by_sign() {
    assert_eq!(epoll_create(returned(3, 0)), Ok(3));
    assert_eq!(epoll_create(returned(0, 11)), Ok(0));
    assert_eq!(epoll_create(returned(-1, 24)), Err(Error::Os(24)));
    assert_eq!(epoll_ctl(returned(0, 0)), Ok(()));
    assert_eq!(epoll_ctl(returned(-1, 9)), Err(Error::Os(9)));
    assert_eq!(epoll_wait(returned(7, 0)), Ok(7));
    assert_eq!(epoll_wait(returned(-1, 4)), Err(Error::Os(4)));
    assert_eq!(eventfd(returned(12, 0)), Ok(12));
    assert_eq!(eventfd(returned(-1, 23)), Err(Error::Os(23)));
    assert_eq!(close(returned(0, 0)), Ok(()));
    assert_eq!(close(returned(-1, 9)), Err(Error::Os(9)));
}

#[test]
fn epoll_selector_takes_over_the_queue() {
    assert_eq!(selector(3).raw_fd(), 3);
    assert_eq!(selector(0).raw_fd(), 0);
    match Selector::new(returned(-1, 24)) {
        Err(e) => assert_eq!(e, Error::Os(24)),
        Ok(_) => panic!("a failed creation gives no selector"),
    }
}

#[test]
fn epoll_wait_call_for_a_buffer() {
    let selector = selector(3);
    let wait = selector.wait(1024, Some(200));
    assert_eq!(wait, EpollWait { epfd: 3, maxevents: 1024, timeout: 200 });
    assert_eq!(selector.wait(1, Some(0)), EpollWait { epfd: 3, maxevents: 1, timeout: 0 });
    assert_eq!(selector.wait(0, None), EpollWait { epfd: 3, maxevents: 0, timeout: -1 });
}

#[test]
fn epoll_wait_call_never_takes_a_negative_timeout() {
    let selector = selector(3);
    assert_eq!(selector.wait(8, Some(-1)).timeout, 0);
    assert_eq!(selector.wait(8, Some(i32::MIN)).timeout, 0);
    assert_eq!(selector.wait(8, Some(i32::MAX)).timeout, i32::MAX);
}

#[test]
fn epoll_wait_call_counts_no_more_than_the_kernel_can() {
    let selector = selector(3);
    assert_eq!(selector.wait(i32::MAX as usize, None).maxevents, i32::MAX);
    assert_eq!(selector.wait(i32::MAX as usize + 1, None).maxevents, i32::MAX);
    assert_eq!(selector.wait(usize::MAX, None).maxevents, i32::MAX);
}

#[test]
fn epoll_select_empties_the_buffer_and_asks_for_its_capacity() {
    let selector = selector(5);
    let mut events = Events::with_capacity(1024);
    events.push(Event::new(EPOLLIN, 1));
    let wait = selector.select(&mut events, Some(50));
    assert!(events.is_empty());
    assert_eq!(wait.epfd, 5);
    assert_eq!(wait.timeout, 50);
    assert!(wait.maxevents >= 1024);
    assert_eq!(wait.maxevents as usize, events.capacity());
}

#[test]
fn epoll_selected_keeps_what_the_call_counted() {
    let selector = selector(5);
    let mut events = Events::with_capacity(4);
    let delivered = vec![Event::new(EPOLLIN, 1), Event::new(EPOLLIN, 2), Event::new(EPOLLIN, 3)];
    assert_eq!(selector.selected(&mut events, returned(2, 0), delivered.clone()), Ok(()));
    assert_eq!(events, vec![Event::new(EPOLLIN, 1), Event::new(EPOLLIN, 2)]);
    assert!(events.capacity() >= 4);
    assert_eq!(selector.selected(&mut events, returned(3, 0), delivered.clone()), Ok(()));
    assert_eq!(events, delivered);
    assert_eq!(selector.selected(&mut events, returned(9, 0), delivered.clone()), Ok(()));
    assert_eq!(events, delivered);
    assert_eq!(selector.selected(&mut events, returned(0, 0), delivered), Ok(()));
    assert!(events.is_empty());
}

#[test]
fn epoll_selected_reports_a_failed_wait() {
    let selector = selector(5);
    let mut events = Events::with_capacity(4);
    events.push(Event::new(EPOLLIN, 77));
    let delivered = vec![Event::new(EPOLLIN, 1)];
    assert_eq!(selector.selected(&mut events, returned(-1, 4), delivered), Err(Error::Os(4)));
    assert_eq!(events, vec![Event::new(EPOLLIN, 77)]);
}

#[test]
fn epoll_register_readable_is_one_shot() {
    let registrator = selector(3).registrator(new_flag());
    let registration = registrator.register(7, 10, Interests::readable()).unwrap();
    assert_eq!(
        registration,
        Registration {
            submit: Some(EpollCtl {
                epfd: 3,
                op: EPOLL_CTL_ADD,
                fd: 7,
                event: Event { events: 0x4000_0001, epoll_data: 10 },
            }),
            writable: false,
        }
    );
    assert_eq!(registration.finish(Some(returned(0, 0))), Ok(()));
}

#[test]
fn epoll_register_reports_a_failed_enrolment() {
    let registrator = selector(3).registrator(new_flag());
    let registration = registrator.register(7, 10, Interests::readable()).unwrap();
    assert_eq!(registration.finish(Some(returned(-1, 17))), Err(Error::Os(17)));
}

#[test]
fn epoll_register_writable_is_unimplemented() {
    let registrator = selector(3).registrator(new_flag());
    let registration = registrator.register(7, 10, Interests::writable()).unwrap();
    assert_eq!(registration, Registration { submit: None, writable: true });
    assert_eq!(registration.finish(None), Err(Error::Unimplemented));
}

#[test]
fn epoll_register_both_enrolls_then_fails() {
    let registrator = selector(3).registrator(new_flag());
    let both = Interests::readable() | Interests::writable();
    let registration = registrator.register(7, 10, both).unwrap();
    assert!(registration.submit.is_some());
    assert!(registration.writable);
    assert_eq!(registration.finish(Some(returned(0, 0))), Err(Error::Unimplemented));
    assert_eq!(registration.finish(Some(returned(-1, 9))), Err(Error::Os(9)));
}

#[test]
fn epoll_register_given_follows_the_flag() {
    let registrator = selector(3).registrator(new_flag());
    assert_eq!(
        registrator.register_given(true, 7, 10, Interests::readable()),
        Err(Error::Closed)
    );
    assert_eq!(
        registrator.register_given(true, 7, 10, Interests::writable()),
        Err(Error::Closed)
    );
    assert!(registrator.register_given(false, 7, 10, Interests::readable()).is_ok());
}

#[test]
fn epoll_close_loop_makes_a_readable_source_once() {
    let registrator = selector(3).registrator(new_flag());
    assert_eq!(registrator.close_loop(), Ok(Eventfd { initval: 1, flags: 0 }));
    assert_eq!(registrator.close_loop(), Err(Error::Closed));
    assert_eq!(registrator.close_loop(), Err(Error::Closed));
}

#[test]
fn epoll_close_loop_given_follows_the_flag() {
    assert_eq!(Registrator::close_loop_given(false), Ok(Eventfd { initval: 1, flags: 0 }));
    assert_eq!(Registrator::close_loop_given(true), Err(Error::Closed));
}

#[test]
fn epoll_wakeup_enrolls_the_source() {
    let registrator = selector(3).registrator(new_flag());
    assert_eq!(
        registrator.wakeup(returned(9, 0)),
        Ok(EpollCtl {
            epfd: 3,
            op: EPOLL_CTL_ADD,
            fd: 9,
            event: Event { events: 0x1, epoll_data: 0 },
        })
    );
    assert_eq!(registrator.wakeup(returned(-1, 24)), Err(Error::Os(24)));
}

#[test]
fn epoll_register_after_close_is_refused() {
    let flag = new_flag();
    let selector = selector(3);
    let first = selector.registrator(Arc::clone(&flag));
    let second = first.clone();
    let third = selector.registrator(flag);
    assert!(first.register(7, 10, Interests::readable()).is_ok());
    assert!(second.close_loop().is_ok());
    assert_eq!(first.register(7, 10, Interests::readable()), Err(Error::Closed));
    assert_eq!(second.register(8, 11, Interests::readable()), Err(Error::Closed));
    assert_eq!(third.register(9, 12, Interests::writable()), Err(Error::Closed));
    assert_eq!(third.close_loop(), Err(Error::Closed));
}

#[test]
fn epoll_registrator_goes_to_other_threads() {
    let flag = new_flag();
    let registrator = selector(3).registrator(Arc::clone(&flag));
    send_and_clone(&registrator);
    assert!(!flag.swap(true, Ordering::SeqCst));
    assert_eq!(registrator.clone().close_loop(), Err(Error::Closed));
}
