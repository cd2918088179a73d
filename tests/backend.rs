use std::time::Duration;

use mio_hermit::event::{
    debug_details, is_aio, is_error, is_lio, is_priority, is_read_closed, is_readable, is_write_closed,
    is_writable, token, Event, RCLOSED, READABLE, WCLOSED, WRITABLE,
};
use mio_hermit::events::Events;
use mio_hermit::interest::{Interest, Token};
use mio_hermit::native::{from_abi, translate, Error, NativeCall, SockAddr};
use mio_hermit::selector::{interests_to_flags, Selector};
use mio_hermit::tcp;
use mio_hermit::waker::Waker;

fn selector(queue: i32) -> Selector {
    assert_eq!(Selector::new(), NativeCall::Socket);
    assert_eq!(Selector::new_created(Ok(queue)), Ok(NativeCall::EventBind { socket: queue }));
    Selector::new_bound(1, queue, Ok(())).unwrap()
}

fn record(socket: i32, flags: u32, data: u64) -> Event {
    Event { socket, flags, data }
}

#[test]
fn flags_for_each_interest() {
    assert_eq!(interests_to_flags(Interest::readable()), READABLE | RCLOSED);
    assert_eq!(interests_to_flags(Interest::writable()), WRITABLE | WCLOSED);
    assert_eq!(interests_to_flags(Interest::readable().add(Interest::writable())), 15);
    assert!(Interest::readable().is_readable());
    assert!(!Interest::readable().is_writable());
}

#[test]
fn readable_interest_delivery() {
    // The queue delivers the requested bits among those that came about.
    let registered = interests_to_flags(Interest::readable());
    let occurred = READABLE | WRITABLE | RCLOSED | WCLOSED;
    let e = record(4, registered & occurred, 9);
    assert!(is_readable(&e));
    assert!(!is_writable(&e));
    assert!(is_read_closed(&e));
    assert!(!is_write_closed(&e));
    let half_closed = record(4, registered & RCLOSED, 9);
    assert!(is_read_closed(&half_closed));
    assert!(!is_writable(&half_closed));
}

#[test]
fn predicates_read_flag_bits() {
    let e = record(3, WRITABLE | WCLOSED, 77);
    assert!(!is_readable(&e));
    assert!(is_writable(&e));
    assert!(!is_read_closed(&e));
    assert!(is_write_closed(&e));
    assert!(!is_error(&e));
    assert!(!is_priority(&e));
    assert!(!is_aio(&e));
    assert!(!is_lio(&e));
    assert_eq!(token(&e), Token(77));
    let d = debug_details(&e);
    assert!(!d.readable && d.writable && !d.rclosed && d.wclosed);
    assert_eq!(d.socket, 3);
    assert_eq!(d.data, 77);
}

#[test]
fn selector_setup_failures() {
    assert_eq!(Selector::new_created(Err(-12)), Err(Error::Os(-12)));
    assert!(matches!(Selector::new_bound(1, 3, Err(-22)), Err(Error::Os(-22))));
    let s = selector(5);
    assert_eq!(s.as_abi(), 5);
    assert_eq!(s.id(), 1);
    assert_eq!(s.close(), NativeCall::Close { socket: 5 });
}

#[test]
fn try_clone_is_unsupported() {
    let s = selector(5);
    assert!(matches!(s.try_clone(), Err(Error::Unsupported)));
}

#[test]
fn zero_timeout_select_on_empty_selector() {
    let s = selector(5);
    let mut events = Events::with_capacity(8);
    let call = s.select(&mut events, Some(Duration::from_secs(0)));
    assert_eq!(call, NativeCall::SetTimeout { socket: 5, timeout: Some(Duration::ZERO) });
    assert_eq!(s.select_timeout_set(&events, Ok(())), Ok(NativeCall::EventWait { queue: 5, capacity: 8 }));
    assert_eq!(s.select_done(&mut events, Ok(Vec::new())), Ok(()));
    assert_eq!(events.len(), 0);
    assert!(events.is_empty());
}

#[test]
fn select_without_timeout_blocks() {
    let s = selector(5);
    let mut events = Events::with_capacity(2);
    assert_eq!(s.select(&mut events, None), NativeCall::SetTimeout { socket: 5, timeout: None });
}

#[test]
fn select_never_exceeds_capacity() {
    let s = selector(5);
    let mut events = Events::with_capacity(2);
    for round in 0..3u64 {
        s.select(&mut events, None);
        assert_eq!(events.len(), 0);
        let filled = vec![record(1, READABLE, round), record(2, WRITABLE, round), record(3, READABLE, round)];
        assert_eq!(s.select_done(&mut events, Ok(filled)), Ok(()));
        assert_eq!(events.len(), 2);
        assert!(events.len() <= events.capacity());
        assert_eq!(events.get(0), Some(record(1, READABLE, round)));
        assert_eq!(events.get(1), Some(record(2, WRITABLE, round)));
        assert_eq!(events.get(2), None);
    }
    assert_eq!(events.to_vec(), vec![record(1, READABLE, 2), record(2, WRITABLE, 2)]);
}

#[test]
fn select_failure_leaves_events_empty() {
    let s = selector(5);
    let mut events = Events::with_capacity(4);
    s.select_done(&mut events, Ok(vec![record(1, READABLE, 0)])).unwrap();
    assert_eq!(events.len(), 1);
    assert_eq!(s.select_done(&mut events, Err(-4)), Err(Error::Os(-4)));
    assert_eq!(events.len(), 0);
    assert_eq!(s.select_timeout_set(&events, Err(-11)), Err(Error::Os(-11)));
    events.clear();
    assert_eq!(events.capacity(), 4);
}

#[test]
fn registration_calls() {
    let s = selector(5);
    let both = Interest::readable().add(Interest::writable());
    assert_eq!(
        s.register(7, Token(42), Interest::readable()),
        NativeCall::EventAdd { queue: 5, event: record(7, READABLE | RCLOSED, 42) }
    );
    assert_eq!(
        s.reregister(7, Token(42), both),
        NativeCall::EventModify { queue: 5, event: record(7, 15, 42) }
    );
    assert_eq!(s.deregister(7), NativeCall::EventRemove { queue: 5, socket: 7 });
    assert_eq!(translate(Err::<(), i32>(-17)), Err(Error::Os(-17)));
    assert_eq!(translate(Ok::<(), i32>(())), Ok(()));
}

#[test]
fn one_waker_recorded() {
    let mut s = selector(5);
    assert!(!s.register_waker());
    assert!(s.register_waker());
}

#[test]
fn waker_setup_and_wake() {
    let s = selector(5);
    let t = Token(usize::MAX);
    assert_eq!(Waker::new(&s, t), NativeCall::Socket);
    assert_eq!(Waker::new_created(Ok(9)), Ok(NativeCall::WakerBind { socket: 9 }));
    let add = Waker::new_bound(&s, 9, t, Ok(())).unwrap();
    let registered = match add {
        NativeCall::EventAdd { queue, event } => {
            assert_eq!(queue, 5);
            event
        },
        other => panic!("unexpected call {:?}", other),
    };
    assert_eq!(registered, record(9, READABLE | RCLOSED, usize::MAX as u64));
    let w = Waker::new_registered(9, Ok(())).unwrap();
    let signal = w.wake();
    assert_eq!(signal, NativeCall::WakerSendEvent { socket: 9, flags: READABLE });
    // The wake arrives before the next wait, which then reports it.
    let mut events = Events::with_capacity(4);
    s.select(&mut events, None);
    let delivered = record(9, registered.flags & READABLE, registered.data);
    s.select_done(&mut events, Ok(vec![delivered])).unwrap();
    let e = events.get(0).unwrap();
    assert!(is_readable(&e));
    assert_eq!(token(&e), t);
}

#[test]
fn waker_setup_failures() {
    let s = selector(5);
    assert_eq!(Waker::new_created(Err(-24)), Err(Error::Os(-24)));
    assert_eq!(Waker::new_bound(&s, 9, Token(1), Err(-1)), Err(Error::Os(-1)));
    assert!(matches!(Waker::new_registered(9, Err(-17)), Err(Error::Os(-17))));
}

#[test]
fn new_socket_steps() {
    let addr = SockAddr::V4 { ip: 0x7f00_0001, port: 80 };
    assert_eq!(tcp::new_for_addr(addr), NativeCall::Socket);
    assert_eq!(
        tcp::new_for_addr_created(Ok(6)),
        Ok(NativeCall::SetNonBlocking { socket: 6, non_blocking: true })
    );
    assert_eq!(tcp::new_for_addr_created(Err(-24)), Err(Error::Os(-24)));
    assert_eq!(tcp::new_for_addr_done(6, Ok(())), Ok(6));
    assert_eq!(tcp::new_for_addr_done(6, Err(-22)), Err(Error::Os(-22)));
}

#[test]
fn connect_binds_before_connecting() {
    let addr = SockAddr::V6 { ip6: 1, port: 8080 };
    assert_eq!(tcp::connect(6, addr), NativeCall::TcpBind { socket: 6, addr: SockAddr::V4 { ip: 0, port: 0 } });
    assert_eq!(tcp::connect_bound(6, addr, Ok(())), Ok(NativeCall::TcpConnect { socket: 6, addr }));
}

#[test]
fn connect_stops_after_failed_bind() {
    let addr = SockAddr::V4 { ip: 0x0a00_0001, port: 443 };
    assert_eq!(tcp::connect_bound(6, addr, Err(-98)), Err(Error::Os(-98)));
}

#[test]
fn bind_and_listen_calls() {
    let addr = SockAddr::V4 { ip: 0, port: 9000 };
    assert_eq!(tcp::bind(3, addr), NativeCall::TcpBind { socket: 3, addr });
    assert_eq!(tcp::listen(3, 128), NativeCall::TcpListen { socket: 3, backlog: 128 });
    assert_eq!(tcp::listen(3, u32::MAX), NativeCall::TcpListen { socket: 3, backlog: u32::MAX as usize });
}

#[test]
fn accept_reports_peer_address() {
    let peer = SockAddr::V4 { ip: 0xc0a8_0102, port: 51000 };
    assert_eq!(tcp::accept(3), NativeCall::TcpAccept { socket: 3 });
    assert_eq!(tcp::accept_accepted(Ok(11)), Ok(NativeCall::PeerAddr { socket: 11 }));
    assert_eq!(tcp::accept_done(11, Ok(peer)), Ok((11, peer)));
}

#[test]
fn accept_failures_share_one_category() {
    assert_eq!(tcp::accept_accepted(Err(-11)), Err(Error::Os(-11)));
    assert_eq!(tcp::accept_done(11, Err(-107)), Err(Error::Os(-107)));
    assert_eq!(from_abi(-107), Error::Os(-107));
}
