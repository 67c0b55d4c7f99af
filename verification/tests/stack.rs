use netstack_lwip::lwip::{StackCall, StackReply, Step};
use netstack_lwip::mutex::LockMonitor;
use netstack_lwip::output::{output, output_ip4, output_ip6, OutputVerdict};
use netstack_lwip::stack::{Adapter, AdapterSetup, NetStack};
use netstack_lwip::stack_impl::{IngressFlush, NetStackImpl, TimerPump};
use netstack_lwip::{Error, IoError};
use std::task::Poll;

type Flushed = Poll<Result<(), IoError>>;

fn run_flush(mut flush: IngressFlush, pbuf: usize, fed: StackReply) -> (Vec<StackCall>, Flushed) {
    let mut monitor = LockMonitor::new();
    let mut calls = Vec::new();
    let mut reply = StackReply::Unit;
    loop {
        match flush.step(reply) {
            Step::Done(result) => {
                assert!(monitor.is_sound());
                assert!(!monitor.is_held());
                assert_eq!(flush.step(StackReply::Unit), Step::Done(result));
                return (calls, result);
            }
            Step::Call(call) => {
                assert!(monitor.observe(&call));
                reply = match call {
                    StackCall::PbufAlloc { .. } => StackReply::Handle(pbuf),
                    StackCall::PbufTake { .. } => StackReply::Status(0),
                    StackCall::NetifInput { .. } => fed,
                    _ => StackReply::Unit,
                };
                calls.push(call);
            }
        }
    }
}

fn staged(bytes: Vec<u8>) -> IngressFlush {
    let mut stack = NetStackImpl::new(4);
    stack.start_send(bytes);
    stack.poll_flush()
}

fn bring_up(
    setup: &mut AdapterSetup,
    bind: i8,
    listen: StackReply,
    udp_bind: i8,
) -> (Vec<StackCall>, Result<(), Error>) {
    let mut monitor = LockMonitor::new();
    let mut calls = Vec::new();
    let mut reply = StackReply::Unit;
    loop {
        match setup.step(reply) {
            Step::Done(result) => {
                assert!(monitor.is_sound());
                assert!(!monitor.is_held());
                return (calls, result);
            }
            Step::Call(call) => {
                assert!(monitor.observe(&call));
                reply = match call {
                    StackCall::TcpNew => StackReply::Handle(0x100),
                    StackCall::TcpBind { .. } => StackReply::Status(bind),
                    StackCall::TcpListen { .. } => listen,
                    StackCall::TcpClose { .. } => StackReply::Status(0),
                    StackCall::UdpNew => StackReply::Handle(0x300),
                    StackCall::UdpBind { .. } => StackReply::Status(udp_bind),
                    _ => StackReply::Unit,
                };
                calls.push(call);
            }
        }
    }
}

#[test]
fn egress_keeps_order_and_gives_each_packet_once() {
    let mut stack = NetStackImpl::new(4);
    assert!(!stack.output(vec![1]));
    assert!(!stack.output(vec![2, 2]));
    assert!(!stack.output(vec![3, 3, 3]));
    assert_eq!(stack.poll_next(), Poll::Ready(Some(vec![1])));
    assert_eq!(stack.poll_next(), Poll::Ready(Some(vec![2, 2])));
    assert_eq!(stack.poll_next(), Poll::Ready(Some(vec![3, 3, 3])));
    assert_eq!(stack.poll_next(), Poll::Pending);
}

#[test]
fn egress_is_bounded_and_drops_what_does_not_fit() {
    let mut stack = NetStackImpl::new(8);
    for i in 0..1000u32 {
        stack.output(i.to_be_bytes().to_vec());
    }
    for i in 0..8u32 {
        assert_eq!(stack.poll_next(), Poll::Ready(Some(i.to_be_bytes().to_vec())));
    }
    assert_eq!(stack.poll_next(), Poll::Pending);
    stack.output(vec![9]);
    assert_eq!(stack.poll_next(), Poll::Ready(Some(vec![9])));
}

#[test]
fn a_parked_reader_is_woken_by_output() {
    let mut stack = NetStackImpl::new(1);
    assert!(!stack.output(vec![1]));
    assert!(!stack.output(vec![2]));
    assert_eq!(stack.poll_next(), Poll::Ready(Some(vec![1])));
    assert_eq!(stack.poll_next(), Poll::Pending);
    assert!(stack.output(vec![3]));
    assert!(stack.output(vec![4]));
    assert_eq!(stack.poll_next(), Poll::Ready(Some(vec![3])));
}

#[test]
fn flush_with_nothing_staged_is_a_no_op() {
    let mut stack = NetStackImpl::new(4);
    let (calls, result) = run_flush(stack.poll_flush(), 0x10, StackReply::Status(0));
    assert_eq!(calls, vec![]);
    assert_eq!(result, Poll::Ready(Ok(())));
    let (calls, result) = run_flush(stack.poll_ready(), 0x10, StackReply::Status(0));
    assert_eq!(calls, vec![]);
    assert_eq!(result, Poll::Ready(Ok(())));
    assert_eq!(stack.poll_close(), Poll::Ready(Ok(())));
}

#[test]
fn flush_of_an_empty_packet_is_a_no_op() {
    let (calls, result) = run_flush(staged(vec![]), 0x10, StackReply::Status(0));
    assert_eq!(calls, vec![]);
    assert_eq!(result, Poll::Ready(Ok(())));
}

#[test]
fn flush_feeds_the_packet_to_the_interface() {
    let flush = staged(vec![0x45, 0, 0, 20]);
    assert_eq!(flush.packet(), &[0x45, 0, 0, 20]);
    assert_eq!(flush.len(), 4);
    let (calls, result) = run_flush(flush, 0x10, StackReply::Status(0));
    assert_eq!(
        calls,
        vec![
            StackCall::Lock,
            StackCall::PbufAlloc { len: 4 },
            StackCall::PbufTake { pbuf: 0x10, len: 4 },
            StackCall::NetifInput { pbuf: 0x10 },
            StackCall::Unlock,
        ]
    );
    assert_eq!(result, Poll::Ready(Ok(())));
}

#[test]
fn flush_takes_the_staged_packet_with_it() {
    let mut stack = NetStackImpl::new(4);
    stack.start_send(vec![1, 2, 3]);
    stack.start_send(vec![4, 5]);
    let flush = stack.poll_flush();
    assert_eq!(flush.packet(), &[4, 5]);
    let again = stack.poll_flush();
    assert_eq!(again.len(), 0);
}

#[test]
fn flush_frees_a_rejected_packet_once() {
    let (calls, result) = run_flush(staged(vec![1, 2, 3]), 0x20, StackReply::Status(-6));
    assert_eq!(
        calls,
        vec![
            StackCall::Lock,
            StackCall::PbufAlloc { len: 3 },
            StackCall::PbufTake { pbuf: 0x20, len: 3 },
            StackCall::NetifInput { pbuf: 0x20 },
            StackCall::PbufFree { pbuf: 0x20 },
            StackCall::Unlock,
        ]
    );
    assert_eq!(result, Poll::Ready(Err(IoError::Input(-6))));
    match result {
        Poll::Ready(Err(e)) => assert_eq!(e.to_string(), "input error: -6"),
        _ => unreachable!(),
    }
}

#[test]
fn flush_without_an_input_entry_point_fails() {
    let (calls, result) = run_flush(staged(vec![1]), 0x20, StackReply::InputMissing);
    assert_eq!(calls.len(), 6);
    assert_eq!(calls[4], StackCall::PbufFree { pbuf: 0x20 });
    assert_eq!(result, Poll::Ready(Err(IoError::InputFnNotSet)));
}

#[test]
fn flush_without_a_pbuf_stays_pending() {
    let (calls, result) = run_flush(staged(vec![1, 2]), 0, StackReply::Status(0));
    assert_eq!(
        calls,
        vec![StackCall::Lock, StackCall::PbufAlloc { len: 2 }, StackCall::Unlock]
    );
    assert_eq!(result, Poll::Pending);
}

#[test]
fn flush_refuses_a_packet_too_long_for_one_pbuf() {
    let (calls, result) = run_flush(staged(vec![0u8; 0x10000]), 0x20, StackReply::Status(0));
    assert_eq!(calls, vec![]);
    assert_eq!(result, Poll::Ready(Err(IoError::Input(-16))));
    let (calls, result) = run_flush(staged(vec![0u8; 0xffff]), 0x20, StackReply::Status(0));
    assert_eq!(calls[1], StackCall::PbufAlloc { len: 0xffff });
    assert_eq!(result, Poll::Ready(Ok(())));
}

#[test]
fn a_reply_of_the_wrong_kind_reads_as_a_failure() {
    let (_, result) = run_flush(staged(vec![1]), 0x20, StackReply::Unit);
    assert_eq!(result, Poll::Ready(Err(IoError::Input(-16))));
    assert_eq!(StackReply::Unit.handle(), 0);
    assert_eq!(StackReply::Size(7).status(), -16);
    assert_eq!(StackReply::Status(3).size(), 0);
    assert_eq!(StackReply::Listen { pcb: 5, reason: -8 }.handle(), 5);
    assert_eq!(StackReply::Listen { pcb: 0, reason: -8 }.status(), -8);
}

#[test]
fn setup_and_teardown_scripts() {
    let mut script = NetStackImpl::setup();
    let mut calls = Vec::new();
    while let Step::Call(call) = script.step(StackReply::Unit) {
        calls.push(call);
    }
    assert_eq!(
        calls,
        vec![
            StackCall::Lock,
            StackCall::Init,
            StackCall::NetifSetOutput,
            StackCall::NetifSetMtu { mtu: 1500 },
            StackCall::AnchorSet { owner: 1 },
            StackCall::Unlock,
            StackCall::SpawnTimerPump,
        ]
    );
    assert_eq!(script.step(StackReply::Unit), Step::Done(()));
    let mut monitor = LockMonitor::new();
    assert!(monitor.observe_all(&calls));
    assert!(!monitor.is_held());

    let mut script = NetStackImpl::teardown();
    let mut calls = Vec::new();
    while let Step::Call(call) = script.step(StackReply::Unit) {
        calls.push(call);
    }
    assert_eq!(calls, vec![StackCall::Lock, StackCall::AnchorClear, StackCall::Unlock]);
}

#[test]
fn timer_pump_ticks_under_the_lock_every_250_ms() {
    let mut pump = TimerPump::new();
    let mut monitor = LockMonitor::new();
    let mut calls = Vec::new();
    for _ in 0..12 {
        match pump.step(StackReply::Unit) {
            Step::Call(call) => {
                assert!(monitor.observe(&call));
                calls.push(call);
            }
            Step::Done(()) => unreachable!(),
        }
    }
    let cycle = [
        StackCall::Lock,
        StackCall::CheckTimeouts,
        StackCall::Unlock,
        StackCall::Sleep { millis: 250 },
    ];
    for (i, call) in calls.iter().enumerate() {
        assert_eq!(*call, cycle[i % 4]);
    }
    assert!(monitor.is_sound());
}

#[test]
fn lock_monitor_rejects_calls_outside_the_lock() {
    let mut monitor = LockMonitor::new();
    assert!(!monitor.observe(&StackCall::CheckTimeouts));
    assert!(!monitor.is_sound());
    let mut monitor = LockMonitor::new();
    assert!(monitor.observe(&StackCall::Lock));
    assert!(monitor.is_held());
    assert!(!monitor.observe(&StackCall::Lock));
    let mut monitor = LockMonitor::new();
    assert!(!monitor.observe(&StackCall::Unlock));
    let mut monitor = LockMonitor::new();
    assert!(monitor.observe(&StackCall::Lock));
    assert!(!monitor.observe(&StackCall::Sleep { millis: 1 }));
    let mut monitor = LockMonitor::new();
    assert!(!monitor.observe_all(&vec![StackCall::Lock, StackCall::Unlock, StackCall::TcpNew]));
    assert!(StackCall::TcpNew.touches_stack());
    assert!(!StackCall::Sleep { millis: 1 }.touches_stack());
}

#[test]
fn output_hooks_need_an_anchored_adapter() {
    assert_eq!(output(None, vec![1]), OutputVerdict { ret: -13, wake: false });
    assert_eq!(output_ip4(None, vec![1]), OutputVerdict { ret: -13, wake: false });
    assert_eq!(output_ip6(None, vec![1]), OutputVerdict { ret: -13, wake: false });
}

#[test]
fn adapter_comes_up_with_the_default_sizes() {
    let mut setup = NetStack::new();
    assert!(setup.step(StackReply::Unit) == Step::Call(StackCall::Lock));
    let mut setup = NetStack::new();
    let (calls, result) =
        bring_up(&mut setup, 0, StackReply::Listen { pcb: 0x200, reason: 0 }, 0);
    assert_eq!(result, Ok(()));
    assert_eq!(calls.len(), 7 + 7 + 5);
    assert_eq!(calls[7], StackCall::Lock);
    assert_eq!(calls[11], StackCall::TcpArg { pcb: 0x200, arg: 2 });
    assert_eq!(calls[17], StackCall::UdpRecv { pcb: 0x300, arg: 3 });
    let Adapter { mut stack, mut listener, udp } = match setup.finish() {
        Some(adapter) => adapter,
        None => panic!("the bring-up succeeded"),
    };
    for i in 0..600u32 {
        stack.output(i.to_be_bytes().to_vec());
    }
    let mut held = 0;
    while let Poll::Ready(Some(_)) = stack.poll_next() {
        held += 1;
    }
    assert_eq!(held, 512);
    assert_eq!(
        output_ip4(Some(&mut stack), vec![7]),
        OutputVerdict { ret: 0, wake: true }
    );
    assert_eq!(stack.poll_next(), Poll::Ready(Some(vec![7])));
    assert_eq!(listener.poll_next(), Poll::Pending);
    let (send, mut recv) = udp.split();
    assert_eq!(send.pcb, 0x300);
    assert!(recv.recv_from().is_pending());
}

#[test]
fn adapter_bring_up_undoes_what_it_did_on_failure() {
    let mut setup = NetStack::with_buffer_size(8, 8);
    let (calls, result) = bring_up(&mut setup, -8, StackReply::Unit, 0);
    assert_eq!(result, Err(Error::LwIP(-8)));
    assert_eq!(
        calls[7..],
        [
            StackCall::Lock,
            StackCall::TcpNew,
            StackCall::TcpBind {
                pcb: 0x100,
                addr: netstack_lwip::lwip::ip_addr_any_type(),
                port: 0
            },
            StackCall::TcpClose { pcb: 0x100 },
            StackCall::Unlock,
            StackCall::Lock,
            StackCall::AnchorClear,
            StackCall::Unlock,
        ]
    );
    assert!(setup.finish().is_none());

    let mut setup = NetStack::with_buffer_size(8, 8);
    let (calls, result) =
        bring_up(&mut setup, 0, StackReply::Listen { pcb: 0x200, reason: 0 }, -8);
    assert_eq!(result, Err(Error::LwIP(-8)));
    let n = calls.len();
    assert_eq!(
        calls[n - 10..],
        [
            StackCall::UdpRemove { pcb: 0x300 },
            StackCall::Unlock,
            StackCall::Lock,
            StackCall::TcpArg { pcb: 0x200, arg: 0 },
            StackCall::TcpAccept { pcb: 0x200, on: false },
            StackCall::TcpClose { pcb: 0x200 },
            StackCall::Unlock,
            StackCall::Lock,
            StackCall::AnchorClear,
            StackCall::Unlock,
        ]
    );
    assert!(setup.finish().is_none());
}

#[test]
fn an_unfinished_bring_up_gives_no_parts() {
    let mut setup = NetStack::new();
    let _ = setup.step(StackReply::Unit);
    assert!(setup.finish().is_none());
}
