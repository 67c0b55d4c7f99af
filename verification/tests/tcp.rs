use netstack_lwip::lwip::{ip_addr_any_type, IpAddrT, StackCall, StackReply, Step};
use netstack_lwip::mutex::LockMonitor;
use netstack_lwip::tcp_listener::TcpListener;
use netstack_lwip::tcp_listener_impl::{Accepted, ListenerSetup, TcpListenerImpl};
use netstack_lwip::tcp_stream::{RecvVerdict, TcpStream, WakeVerdict, RECV_HIGH_WATER};
use netstack_lwip::util::{to_ip_addr_t, SocketAddr};
use netstack_lwip::Error;
use std::task::Poll;

const PCB: usize = 0x5000;

fn local() -> SocketAddr {
    SocketAddr::V4 { ip: [10, 0, 0, 1], port: 80 }
}

fn remote() -> SocketAddr {
    SocketAddr::V4 { ip: [10, 0, 0, 2], port: 40000 }
}

fn native(a: &SocketAddr) -> IpAddrT {
    to_ip_addr_t(a)
}

fn stream() -> TcpStream {
    let (stream, calls) = TcpStream::new(PCB, 16, &native(&local()), 80, &native(&remote()), 40000);
    assert_eq!(
        calls,
        vec![
            StackCall::TcpArg { pcb: PCB, arg: 16 },
            StackCall::TcpRecv { pcb: PCB, on: true },
            StackCall::TcpSent { pcb: PCB, on: true },
            StackCall::TcpErr { pcb: PCB, on: true },
        ]
    );
    stream
}

fn quiet(recved: u16) -> RecvVerdict {
    RecvVerdict { ret: 0, recved, free_pbuf: true, wake_reader: false, wake_writer: false }
}

fn answer(call: &StackCall, room: u16, status: i8) -> StackReply {
    match call {
        StackCall::TcpSndbuf { .. } => StackReply::Size(room),
        StackCall::TcpWrite { .. } => StackReply::Status(status),
        StackCall::TcpOutput { .. } => StackReply::Status(0),
        StackCall::TcpShutdownTx { .. } => StackReply::Status(status),
        StackCall::TcpClose { .. } => StackReply::Status(status),
        _ => StackReply::Unit,
    }
}

fn write(s: &mut TcpStream, len: usize, room: u16, status: i8) -> (Vec<StackCall>, Poll<Result<usize, Error>>) {
    let mut op = s.poll_write(len);
    let mut monitor = LockMonitor::new();
    let mut calls = Vec::new();
    let mut reply = StackReply::Unit;
    loop {
        match op.step(s, reply) {
            Step::Done(result) => {
                assert!(monitor.is_sound() && !monitor.is_held());
                return (calls, result);
            }
            Step::Call(call) => {
                assert!(monitor.observe(&call));
                reply = answer(&call, room, status);
                calls.push(call);
            }
        }
    }
}

fn read(s: &mut TcpStream, max: usize) -> (Vec<StackCall>, Poll<Result<usize, Error>>, Vec<u8>) {
    let mut op = s.poll_read(max);
    let mut monitor = LockMonitor::new();
    let mut calls = Vec::new();
    loop {
        match op.step(s, StackReply::Unit) {
            Step::Done(result) => {
                assert!(monitor.is_sound() && !monitor.is_held());
                return (calls, result, op.data().to_vec());
            }
            Step::Call(call) => {
                assert!(monitor.observe(&call));
                calls.push(call);
            }
        }
    }
}

fn flush(s: &mut TcpStream) -> Poll<Result<(), Error>> {
    let mut op = s.poll_flush();
    let mut calls = Vec::new();
    loop {
        match op.step(s, StackReply::Unit) {
            Step::Done(result) => {
                assert_eq!(calls, vec![StackCall::Lock, StackCall::Unlock]);
                return result;
            }
            Step::Call(call) => calls.push(call),
        }
    }
}

fn shutdown(s: &mut TcpStream, status: i8) -> (Vec<StackCall>, Poll<Result<(), Error>>) {
    let mut op = s.poll_shutdown();
    let mut monitor = LockMonitor::new();
    let mut calls = Vec::new();
    let mut reply = StackReply::Unit;
    loop {
        match op.step(s, reply) {
            Step::Done(result) => {
                assert!(monitor.is_sound() && !monitor.is_held());
                return (calls, result);
            }
            Step::Call(call) => {
                assert!(monitor.observe(&call));
                reply = answer(&call, 0, status);
                calls.push(call);
            }
        }
    }
}

fn release(s: &mut TcpStream, close_status: i8) -> Vec<StackCall> {
    let mut op = s.close();
    let mut monitor = LockMonitor::new();
    let mut calls = Vec::new();
    let mut reply = StackReply::Unit;
    loop {
        match op.step(s, reply) {
            Step::Done(()) => {
                assert!(monitor.is_sound() && !monitor.is_held());
                return calls;
            }
            Step::Call(call) => {
                assert!(monitor.observe(&call));
                reply = answer(&call, 0, close_status);
                calls.push(call);
            }
        }
    }
}

fn open_listener(bind: i8, listen: StackReply, created: usize) -> (Vec<StackCall>, Result<usize, Error>) {
    let mut setup: ListenerSetup = TcpListenerImpl::new();
    let mut monitor = LockMonitor::new();
    let mut calls = Vec::new();
    let mut reply = StackReply::Unit;
    loop {
        match setup.step(reply) {
            Step::Done(result) => {
                assert!(monitor.is_sound() && !monitor.is_held());
                assert_eq!(setup.step(StackReply::Unit), Step::Done(result));
                return (calls, result);
            }
            Step::Call(call) => {
                assert!(monitor.observe(&call));
                reply = match call {
                    StackCall::TcpNew => StackReply::Handle(created),
                    StackCall::TcpBind { .. } => StackReply::Status(bind),
                    StackCall::TcpListen { .. } => listen,
                    StackCall::TcpClose { .. } => StackReply::Status(0),
                    _ => StackReply::Unit,
                };
                calls.push(call);
            }
        }
    }
}

#[test]
fn listener_opens_binds_listens_and_registers() {
    let (calls, result) = open_listener(0, StackReply::Listen { pcb: 0x200, reason: 0 }, 0x100);
    assert_eq!(result, Ok(0x200));
    assert_eq!(
        calls,
        vec![
            StackCall::Lock,
            StackCall::TcpNew,
            StackCall::TcpBind { pcb: 0x100, addr: ip_addr_any_type(), port: 0 },
            StackCall::TcpListen { pcb: 0x100, backlog: 255 },
            StackCall::TcpArg { pcb: 0x200, arg: 2 },
            StackCall::TcpAccept { pcb: 0x200, on: true },
            StackCall::Unlock,
        ]
    );
    let (_, same) = {
        let mut setup = TcpListener::new();
        let mut reply = StackReply::Unit;
        let mut calls = Vec::new();
        loop {
            match setup.step(reply) {
                Step::Done(r) => break (calls, r),
                Step::Call(call) => {
                    reply = match call {
                        StackCall::TcpNew => StackReply::Handle(0x100),
                        StackCall::TcpBind { .. } => StackReply::Status(0),
                        StackCall::TcpListen { .. } => StackReply::Listen { pcb: 0x200, reason: 0 },
                        _ => StackReply::Unit,
                    };
                    calls.push(call);
                }
            }
        }
    };
    assert_eq!(same, Ok(0x200));
}

#[test]
fn listener_reports_the_code_of_the_step_that_failed() {
    let (calls, result) = open_listener(-8, StackReply::Unit, 0x100);
    assert_eq!(result, Err(Error::LwIP(-8)));
    assert_eq!(calls[3..], [StackCall::TcpClose { pcb: 0x100 }, StackCall::Unlock]);

    let (calls, result) = open_listener(0, StackReply::Listen { pcb: 0, reason: -1 }, 0x100);
    assert_eq!(result, Err(Error::LwIP(-1)));
    assert_eq!(calls[4..], [StackCall::TcpClose { pcb: 0x100 }, StackCall::Unlock]);

    let (calls, result) = open_listener(0, StackReply::Unit, 0);
    assert_eq!(result, Err(Error::LwIP(-1)));
    assert_eq!(calls, vec![StackCall::Lock, StackCall::TcpNew, StackCall::Unlock]);
}

#[test]
fn accept_callback_answers_the_stack() {
    let l = native(&local());
    let r = native(&remote());
    let v = netstack_lwip::tcp_listener_impl::tcp_accept_cb(None, PCB, 0, &l, 80, &r, 40000);
    assert_eq!(v.ret, -11);
    assert!(v.stream.is_none() && v.calls.is_empty() && !v.wake);
    let v = netstack_lwip::tcp_listener::tcp_accept_cb(None, PCB, 0, &l, 80, &r, 40000);
    assert_eq!(v.ret, -11);
    assert!(v.stream.is_none());

    let mut listener = TcpListenerImpl::open(0x200);
    let v = netstack_lwip::tcp_listener_impl::tcp_accept_cb(Some(&mut listener), 0, 0, &l, 80, &r, 40000);
    assert_eq!(v.ret, 0);
    assert!(v.stream.is_none());
    let v = listener.accept(PCB, -13, &l, 80, &r, 40000);
    assert_eq!(v.ret, 0);
    assert!(v.stream.is_none());
    assert_eq!(listener.poll_next(), Poll::Pending);
}

#[test]
fn accept_and_echo() {
    let l = native(&local());
    let r = native(&remote());
    let mut listener = TcpListenerImpl::open(0x200);
    assert_eq!(listener.poll_next(), Poll::Pending);
    let v = netstack_lwip::tcp_listener_impl::tcp_accept_cb(Some(&mut listener), PCB, 0, &l, 80, &r, 40000);
    assert_eq!(v.ret, 0);
    assert!(v.wake);
    assert_eq!(v.calls[0], StackCall::TcpArg { pcb: PCB, arg: 16 });
    let mut s = v.stream.expect("a stream for the connection");
    assert_eq!(s.remote_addr(), remote());
    assert_eq!(s.local_addr(), local());
    assert_eq!(s.key(), 16);
    assert_eq!(s.pcb(), PCB);
    assert_eq!(
        listener.poll_next(),
        Poll::Ready(Some(Accepted { key: 16, local: local(), remote: remote() }))
    );
    assert_eq!(listener.poll_next(), Poll::Pending);

    let (calls, result) = write(&mut s, 2, 1000, 0);
    assert_eq!(result, Poll::Ready(Ok(2)));
    assert_eq!(
        calls,
        vec![
            StackCall::Lock,
            StackCall::TcpSndbuf { pcb: PCB },
            StackCall::TcpWrite { pcb: PCB, len: 2 },
            StackCall::TcpOutput { pcb: PCB },
            StackCall::Unlock,
        ]
    );
    assert_eq!(s.unacked(), 2);

    let v = listener.accept(PCB + 8, 0, &l, 80, &r, 40001);
    assert_eq!(v.stream.expect("a second stream").key(), 17);
}

#[test]
fn channel_listener_accepts_in_order() {
    let l = native(&local());
    let r = native(&remote());
    let mut listener = TcpListener::open(0x200);
    assert_eq!(listener.poll_next(), Poll::Pending);
    let v = netstack_lwip::tcp_listener::tcp_accept_cb(Some(&mut listener), PCB, 0, &l, 80, &r, 40000);
    assert!(v.wake);
    assert_eq!(v.stream.expect("a stream").remote_addr(), remote());
    let v = listener.accept(PCB + 8, 0, &l, 80, &r, 40001);
    assert_eq!(v.ret, 0);
    let v = listener.accept(0, 0, &l, 80, &r, 40002);
    assert!(v.stream.is_none());
    assert_eq!(
        listener.poll_next(),
        Poll::Ready(Some(Accepted { key: 16, local: local(), remote: remote() }))
    );
    assert_eq!(
        listener.poll_next(),
        Poll::Ready(Some(Accepted {
            key: 17,
            local: local(),
            remote: SocketAddr::V4 { ip: [10, 0, 0, 2], port: 40001 }
        }))
    );
    assert_eq!(listener.poll_next(), Poll::Pending);
    let mut script = listener.teardown();
    let mut calls = Vec::new();
    while let Step::Call(call) = script.step(StackReply::Unit) {
        calls.push(call);
    }
    assert_eq!(
        calls,
        vec![
            StackCall::Lock,
            StackCall::TcpArg { pcb: 0x200, arg: 0 },
            StackCall::TcpAccept { pcb: 0x200, on: false },
            StackCall::TcpClose { pcb: 0x200 },
            StackCall::Unlock,
        ]
    );
}

#[test]
fn half_close() {
    let mut s = stream();
    let (_, result, _) = read(&mut s, 16);
    assert_eq!(result, Poll::Pending);
    let v = s.recv_cb(None, 0);
    assert_eq!(
        v,
        RecvVerdict { ret: 0, recved: 0, free_pbuf: false, wake_reader: true, wake_writer: false }
    );
    assert!(s.is_read_closed());
    let (calls, result, data) = read(&mut s, 16);
    assert_eq!(result, Poll::Ready(Ok(0)));
    assert_eq!(calls, vec![StackCall::Lock, StackCall::Unlock]);
    assert!(data.is_empty());
    let (_, result) = write(&mut s, 5, 100, 0);
    assert_eq!(result, Poll::Ready(Ok(5)));
    let (calls, result) = shutdown(&mut s, 0);
    assert_eq!(result, Poll::Ready(Ok(())));
    assert_eq!(calls, vec![StackCall::Lock, StackCall::TcpShutdownTx { pcb: PCB }, StackCall::Unlock]);
    assert!(s.is_write_closed());
    let (calls, result) = write(&mut s, 5, 100, 0);
    assert_eq!(result, Poll::Ready(Err(Error::LwIP(-15))));
    assert_eq!(calls, vec![StackCall::Lock, StackCall::Unlock]);
    let (calls, result) = shutdown(&mut s, 0);
    assert_eq!(result, Poll::Ready(Ok(())));
    assert_eq!(calls, vec![StackCall::Lock, StackCall::Unlock]);
}

#[test]
fn shutdown_reports_the_stacks_refusal() {
    let mut s = stream();
    let (_, result) = shutdown(&mut s, -11);
    assert_eq!(result, Poll::Ready(Err(Error::LwIP(-11))));
    assert!(!s.is_write_closed());
}

#[test]
fn received_bytes_are_read_in_order_and_acknowledged_once() {
    let mut s = stream();
    assert_eq!(s.recv_cb(Some(vec![1, 2, 3]), 0), quiet(3));
    assert_eq!(s.recv_cb(Some(vec![4, 5]), 0), quiet(2));
    assert_eq!(s.buffered(), 5);
    assert_eq!(s.withheld(), 0);
    let (calls, result, data) = read(&mut s, 4);
    assert_eq!(result, Poll::Ready(Ok(4)));
    assert_eq!(data, vec![1, 2, 3, 4]);
    assert_eq!(calls, vec![StackCall::Lock, StackCall::Unlock]);
    let (_, result, data) = read(&mut s, 4);
    assert_eq!(result, Poll::Ready(Ok(1)));
    assert_eq!(data, vec![5]);
    let (_, result, _) = read(&mut s, 4);
    assert_eq!(result, Poll::Pending);
    let v = s.recv_cb(Some(vec![6]), 0);
    assert!(v.wake_reader);
    assert_eq!(v.recved, 1);
    let (_, result, data) = read(&mut s, 0);
    assert_eq!(result, Poll::Ready(Ok(0)));
    assert!(data.is_empty());
    assert_eq!(s.buffered(), 1);
}

#[test]
fn bytes_above_the_high_water_mark_are_acknowledged_when_read() {
    let mut s = stream();
    let mut acked: usize = 0;
    let chunk = 0x4000;
    for _ in 0..4 {
        let v = s.recv_cb(Some(vec![7u8; chunk]), 0);
        assert_eq!(v.recved as usize, chunk);
        acked += v.recved as usize;
    }
    assert_eq!(s.buffered(), RECV_HIGH_WATER);
    let v = s.recv_cb(Some(vec![8u8; 100]), 0);
    assert_eq!(v, quiet(0));
    let v = s.recv_cb(Some(vec![9u8; 50]), 0);
    assert_eq!(v.recved, 0);
    assert_eq!(s.withheld(), 150);
    let mut delivered = 0;
    let (calls, result, _) = read(&mut s, 100);
    assert_eq!(result, Poll::Ready(Ok(100)));
    assert_eq!(
        calls,
        vec![StackCall::Lock, StackCall::TcpRecved { pcb: PCB, len: 100 }, StackCall::Unlock]
    );
    acked += 100;
    delivered += 100;
    assert_eq!(s.withheld(), 50);
    loop {
        let (calls, result, data) = read(&mut s, 0xffff);
        match result {
            Poll::Ready(Ok(n)) => {
                assert_eq!(n, data.len());
                delivered += n;
                for call in calls {
                    if let StackCall::TcpRecved { len, .. } = call {
                        acked += len as usize;
                    }
                }
            }
            Poll::Pending => break,
            Poll::Ready(Err(_)) => unreachable!(),
        }
        assert!(acked >= delivered);
    }
    assert_eq!(delivered, RECV_HIGH_WATER + 150);
    assert_eq!(acked, delivered);
    assert_eq!(s.withheld(), 0);
}

#[test]
fn a_receive_error_is_stored_and_wakes_both_sides() {
    let mut s = stream();
    let (_, result, _) = read(&mut s, 1);
    assert_eq!(result, Poll::Pending);
    let (_, result) = write(&mut s, 5, 0, 0);
    assert_eq!(result, Poll::Pending);
    let v = s.recv_cb(Some(vec![1]), -14);
    assert_eq!(
        v,
        RecvVerdict { ret: 0, recved: 0, free_pbuf: true, wake_reader: true, wake_writer: true }
    );
    assert_eq!(s.error(), Some(-14));
    let (_, result, _) = read(&mut s, 1);
    assert_eq!(result, Poll::Ready(Err(Error::LwIP(-14))));
    let (_, result) = write(&mut s, 5, 100, 0);
    assert_eq!(result, Poll::Ready(Err(Error::LwIP(-14))));
    assert_eq!(flush(&mut s), Poll::Ready(Err(Error::LwIP(-14))));
    let (_, result) = shutdown(&mut s, 0);
    assert_eq!(result, Poll::Ready(Err(Error::LwIP(-14))));
}

#[test]
fn backpressure() {
    let mut s = stream();
    let mut offered: usize = 1 << 20;
    let mut room: usize = 0x2000;
    let mut accepted = 0;
    loop {
        let (_, result) = write(&mut s, offered, room as u16, 0);
        match result {
            Poll::Ready(Ok(n)) => {
                assert!(n > 0 && n <= room);
                offered -= n;
                room -= n;
                accepted += n;
            }
            Poll::Pending => break,
            Poll::Ready(Err(_)) => unreachable!(),
        }
    }
    assert_eq!(accepted, 0x2000);
    assert_eq!(s.unacked(), 0x2000);
    assert_eq!(flush(&mut s), Poll::Pending);
    assert_eq!(flush(&mut s), Poll::Pending);
    let calls = release(&mut s, 0);
    assert_eq!(
        calls,
        vec![
            StackCall::Lock,
            StackCall::TcpArg { pcb: PCB, arg: 0 },
            StackCall::TcpRecv { pcb: PCB, on: false },
            StackCall::TcpSent { pcb: PCB, on: false },
            StackCall::TcpErr { pcb: PCB, on: false },
            StackCall::TcpAbort { pcb: PCB },
            StackCall::Unlock,
        ]
    );
    assert_eq!(s.pcb(), 0);
    assert_eq!(release(&mut s, 0), vec![StackCall::Lock, StackCall::Unlock]);
}

#[test]
fn unacknowledged_count_is_what_was_accepted_less_what_was_sent() {
    let mut s = stream();
    let mut accepted = 0;
    let mut reported = 0;
    for (len, room) in [(10usize, 100u16), (500, 20), (7, 7), (0, 50), (70000, 65535)] {
        if let (_, Poll::Ready(Ok(n))) = write(&mut s, len, room, 0) {
            accepted += n;
        }
        assert_eq!(s.unacked(), accepted - reported);
    }
    assert_eq!(accepted, 10 + 20 + 7 + 0 + 65535);
    assert_eq!(flush(&mut s), Poll::Pending);
    for len in [10u16, 27, 65535] {
        let v = s.sent_cb(len);
        reported += len as usize;
        assert_eq!(v.wake_reader, false);
        assert_eq!(s.unacked(), accepted - reported);
    }
    assert_eq!(s.unacked(), 0);
    assert_eq!(flush(&mut s), Poll::Ready(Ok(())));
    assert_eq!(s.sent_cb(5), WakeVerdict { wake_reader: false, wake_writer: false });
    assert_eq!(s.unacked(), 0);
}

#[test]
fn a_refused_write_changes_nothing() {
    let mut s = stream();
    let (calls, result) = write(&mut s, 10, 100, -1);
    assert_eq!(result, Poll::Pending);
    assert_eq!(calls.len(), 4);
    assert_eq!(s.unacked(), 0);
    assert!(s.sent_cb(0).wake_writer);
    let (_, result) = write(&mut s, 10, 100, -11);
    assert_eq!(result, Poll::Ready(Err(Error::LwIP(-11))));
    assert_eq!(s.unacked(), 0);
    let (calls, result) = write(&mut s, 0, 100, 0);
    assert_eq!(result, Poll::Ready(Ok(0)));
    assert_eq!(calls, vec![StackCall::Lock, StackCall::Unlock]);
}

#[test]
fn the_error_callback_lets_go_of_the_pcb() {
    let mut s = stream();
    assert_eq!(s.recv_cb(Some(vec![1, 2]), 0), quiet(2));
    let (_, result) = write(&mut s, 3, 0, 0);
    assert_eq!(result, Poll::Pending);
    let v = s.err_cb(-14);
    assert_eq!(v, WakeVerdict { wake_reader: false, wake_writer: true });
    assert_eq!(s.pcb(), 0);
    assert!(s.is_read_closed() && s.is_write_closed());
    let (calls, result, data) = read(&mut s, 10);
    assert_eq!(result, Poll::Ready(Ok(2)));
    assert_eq!(data, vec![1, 2]);
    assert_eq!(calls, vec![StackCall::Lock, StackCall::Unlock]);
    let (_, result, _) = read(&mut s, 10);
    assert_eq!(result, Poll::Ready(Err(Error::LwIP(-14))));
    assert_eq!(release(&mut s, 0), vec![StackCall::Lock, StackCall::Unlock]);
    assert_eq!(
        s.recv_cb(Some(vec![3]), 0),
        RecvVerdict { ret: 0, recved: 0, free_pbuf: true, wake_reader: false, wake_writer: false }
    );
    assert_eq!(s.buffered(), 0);
}

#[test]
fn drop_closes_after_shutdown_and_aborts_otherwise() {
    let mut s = stream();
    let (_, result) = shutdown(&mut s, 0);
    assert_eq!(result, Poll::Ready(Ok(())));
    let calls = release(&mut s, 0);
    assert_eq!(calls[1], StackCall::TcpArg { pcb: PCB, arg: 0 });
    assert_eq!(calls[5..], [StackCall::TcpClose { pcb: PCB }, StackCall::Unlock]);

    let mut s = stream();
    let _ = shutdown(&mut s, 0);
    let calls = release(&mut s, -1);
    assert_eq!(
        calls[5..],
        [StackCall::TcpClose { pcb: PCB }, StackCall::TcpAbort { pcb: PCB }, StackCall::Unlock]
    );

    let mut s = stream();
    let _ = shutdown(&mut s, 0);
    let _ = s.recv_cb(Some(vec![1]), -14);
    let calls = release(&mut s, 0);
    assert_eq!(calls[5..], [StackCall::TcpAbort { pcb: PCB }, StackCall::Unlock]);

    let mut s = stream();
    let calls = release(&mut s, 0);
    assert_eq!(calls[5..], [StackCall::TcpAbort { pcb: PCB }, StackCall::Unlock]);
}

#[test]
fn dropping_one_stream_leaves_the_others_alone() {
    let mut a = stream();
    let (mut b, _) = TcpStream::new(PCB + 8, 17, &native(&local()), 80, &native(&remote()), 40001);
    let _ = write(&mut a, 100, 100, 0);
    let calls = release(&mut a, 0);
    let arg = calls.iter().position(|c| *c == StackCall::TcpArg { pcb: PCB, arg: 0 });
    let end = calls
        .iter()
        .position(|c| matches!(c, StackCall::TcpClose { .. } | StackCall::TcpAbort { .. }));
    assert!(arg.is_some() && end.is_some() && arg < end);
    assert!(calls.iter().all(|c| *c != StackCall::TcpAbort { pcb: PCB + 8 }));
    assert_eq!(b.recv_cb(Some(vec![1, 2, 3]), 0).recved, 3);
    let (_, result, data) = read(&mut b, 10);
    assert_eq!(result, Poll::Ready(Ok(3)));
    assert_eq!(data, vec![1, 2, 3]);
}
