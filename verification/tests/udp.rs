use netstack_lwip::lwip::{ip_addr_any_type, IpAddrT, StackCall, StackReply, Step};
use netstack_lwip::mutex::LockMonitor;
use netstack_lwip::udp::{udp_recv_cb, SendHalf, UdpSocket, UdpVerdict};
use netstack_lwip::util::{to_ip_addr_t, SocketAddr};
use netstack_lwip::{Error, IoError};
use std::task::Poll;

const PCB: usize = 0x300;

fn client() -> SocketAddr {
    SocketAddr::V4 { ip: [10, 0, 0, 2], port: 5000 }
}

fn resolver() -> SocketAddr {
    SocketAddr::V4 { ip: [1, 1, 1, 1], port: 53 }
}

fn native(a: &SocketAddr) -> IpAddrT {
    to_ip_addr_t(a)
}

fn send(half: &SendHalf, len: usize, pbuf: usize, status: i8) -> (Vec<StackCall>, Result<(), IoError>) {
    let mut op = half.send_to(len, &resolver(), &client());
    let mut monitor = LockMonitor::new();
    let mut calls = Vec::new();
    let mut reply = StackReply::Unit;
    loop {
        match op.step(reply) {
            Step::Done(result) => {
                assert!(monitor.is_sound() && !monitor.is_held());
                assert_eq!(op.step(StackReply::Unit), Step::Done(result));
                return (calls, result);
            }
            Step::Call(call) => {
                assert!(monitor.observe(&call));
                reply = match call {
                    StackCall::PbufAllocReference { .. } => StackReply::Handle(pbuf),
                    StackCall::UdpSendto { .. } => StackReply::Status(status),
                    _ => StackReply::Unit,
                };
                calls.push(call);
            }
        }
    }
}

fn open_socket(created: usize, bind: i8) -> (Vec<StackCall>, Result<usize, Error>) {
    let mut setup = UdpSocket::new();
    let mut monitor = LockMonitor::new();
    let mut calls = Vec::new();
    let mut reply = StackReply::Unit;
    loop {
        match setup.step(reply) {
            Step::Done(result) => {
                assert!(monitor.is_sound() && !monitor.is_held());
                return (calls, result);
            }
            Step::Call(call) => {
                assert!(monitor.observe(&call));
                reply = match call {
                    StackCall::UdpNew => StackReply::Handle(created),
                    StackCall::UdpBind { .. } => StackReply::Status(bind),
                    _ => StackReply::Unit,
                };
                calls.push(call);
            }
        }
    }
}

#[test]
fn udp_echo() {
    let mut socket = UdpSocket::open(PCB, 64);
    assert!(socket.poll_next().is_pending());
    let v = udp_recv_cb(
        Some(&mut socket),
        b"hello".to_vec(),
        &native(&client()),
        5000,
        &native(&resolver()),
        53,
    );
    assert_eq!(v, UdpVerdict { free_pbuf: true, wake: true });
    let (half, mut recv) = socket.split();
    assert_eq!(
        recv.recv_from(),
        Poll::Ready(Ok((b"hello".to_vec(), client(), resolver())))
    );
    assert!(recv.recv_from().is_pending());

    let (calls, result) = send(&half, 5, 0x40, 0);
    assert_eq!(result, Ok(()));
    assert_eq!(
        calls,
        vec![
            StackCall::Lock,
            StackCall::PbufAllocReference { len: 5 },
            StackCall::UdpSendto {
                pcb: PCB,
                pbuf: 0x40,
                dst: native(&client()),
                dst_port: 5000,
                src: native(&resolver()),
                src_port: 53,
            },
            StackCall::PbufFree { pbuf: 0x40 },
            StackCall::Unlock,
        ]
    );
    let copy = half;
    assert_eq!(copy, half);
}

#[test]
fn send_reports_the_stacks_refusal_and_frees_the_pbuf() {
    let half = SendHalf { pcb: PCB };
    let (calls, result) = send(&half, 5, 0x40, -4);
    assert_eq!(result, Err(IoError::UdpSendto(-4)));
    assert_eq!(result.unwrap_err().to_string(), "udp_sendto error: -4");
    assert_eq!(calls[3], StackCall::PbufFree { pbuf: 0x40 });
    assert_eq!(calls.len(), 5);
}

#[test]
fn send_without_a_pbuf_or_with_too_many_bytes_does_not_reach_the_stack() {
    let half = SendHalf { pcb: PCB };
    let (calls, result) = send(&half, 5, 0, 0);
    assert_eq!(result, Err(IoError::UdpSendto(-1)));
    assert_eq!(
        calls,
        vec![StackCall::Lock, StackCall::PbufAllocReference { len: 5 }, StackCall::Unlock]
    );
    let (calls, result) = send(&half, 0x10000, 0x40, 0);
    assert_eq!(result, Err(IoError::UdpSendto(-16)));
    assert_eq!(calls, vec![]);
}

#[test]
fn datagram_queue_is_bounded_and_keeps_order() {
    let mut socket = UdpSocket::open(PCB, 2);
    for i in 0..5u8 {
        let v = socket.receive(vec![i], &native(&client()), 5000, &native(&resolver()), 53);
        assert_eq!(v, UdpVerdict { free_pbuf: true, wake: false });
    }
    assert_eq!(socket.poll_next(), Poll::Ready(Some((vec![0], client(), resolver()))));
    assert_eq!(socket.poll_next(), Poll::Ready(Some((vec![1], client(), resolver()))));
    assert_eq!(socket.poll_next(), Poll::Pending);
}

#[test]
fn a_datagram_with_an_address_of_no_family_is_dropped() {
    let mut socket = UdpSocket::open(PCB, 4);
    let v = socket.receive(vec![1], &ip_addr_any_type(), 5000, &native(&resolver()), 53);
    assert_eq!(v, UdpVerdict { free_pbuf: true, wake: false });
    let v = socket.receive(vec![2], &native(&client()), 5000, &ip_addr_any_type(), 53);
    assert_eq!(v.free_pbuf, true);
    assert_eq!(socket.poll_next(), Poll::Pending);
    let v = socket.receive(vec![3], &native(&client()), 5000, &native(&resolver()), 53);
    assert!(v.wake);
    assert_eq!(socket.poll_next(), Poll::Ready(Some((vec![3], client(), resolver()))));
}

#[test]
fn a_datagram_for_a_socket_that_is_gone_is_dropped() {
    let v = udp_recv_cb(None, vec![1], &native(&client()), 5000, &native(&resolver()), 53);
    assert_eq!(v, UdpVerdict { free_pbuf: true, wake: false });
}

#[test]
fn v6_datagrams_keep_their_zone() {
    let mut ip = [0u8; 16];
    ip[0] = 0xfe;
    ip[1] = 0x80;
    ip[15] = 9;
    let src = SocketAddr::V6 { ip, port: 546, scope_id: 3 };
    let mut ip2 = ip;
    ip2[15] = 1;
    let dst = SocketAddr::V6 { ip: ip2, port: 547, scope_id: 3 };
    let mut socket = UdpSocket::open(PCB, 4);
    socket.receive(vec![1, 2], &native(&src), 546, &native(&dst), 547);
    assert_eq!(socket.poll_next(), Poll::Ready(Some((vec![1, 2], src, dst))));
}

#[test]
fn socket_opens_binds_and_registers() {
    let (calls, result) = open_socket(PCB, 0);
    assert_eq!(result, Ok(PCB));
    assert_eq!(
        calls,
        vec![
            StackCall::Lock,
            StackCall::UdpNew,
            StackCall::UdpBind { pcb: PCB, addr: ip_addr_any_type(), port: 0 },
            StackCall::UdpRecv { pcb: PCB, arg: 3 },
            StackCall::Unlock,
        ]
    );
    let (calls, result) = open_socket(PCB, -8);
    assert_eq!(result, Err(Error::LwIP(-8)));
    assert_eq!(calls[3..], [StackCall::UdpRemove { pcb: PCB }, StackCall::Unlock]);
    let (calls, result) = open_socket(0, 0);
    assert_eq!(result, Err(Error::LwIP(-1)));
    assert_eq!(calls, vec![StackCall::Lock, StackCall::UdpNew, StackCall::Unlock]);
}

#[test]
fn socket_teardown_unregisters_before_it_removes() {
    let socket = UdpSocket::open(PCB, 4);
    let mut script = socket.teardown();
    let mut calls = Vec::new();
    while let Step::Call(call) = script.step(StackReply::Unit) {
        calls.push(call);
    }
    assert_eq!(
        calls,
        vec![
            StackCall::Lock,
            StackCall::UdpRecv { pcb: PCB, arg: 0 },
            StackCall::UdpRemove { pcb: PCB },
            StackCall::Unlock,
        ]
    );
    let (_, recv) = socket.split();
    let mut script = recv.teardown();
    assert_eq!(script.step(StackReply::Unit), Step::Call(StackCall::Lock));
}
