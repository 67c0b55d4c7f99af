//! The UDP bridge: one socket that receives every redirected datagram with
//! both of its addresses, and sends datagrams from any source to any
//! destination.

use crate::channel::{
    datagram_channel, datagram_try_recv, datagram_try_send, datagram_view, datagrams_joined,
    datagrams_limit, datagrams_queued, Datagram, DatagramView, MAX_BUFFER,
};
use crate::lwip::{
    ip_addr_any_type, IpAddrT, StackCall, StackReply, Step, ERR_ARG, ERR_MEM, ERR_OK,
    IPADDR_TYPE_V4, IPADDR_TYPE_V6, MAX_CHUNK, NULL,
};
use crate::mutex::step_obeys;
use crate::script::Script;
use crate::util::{host_ip_addr_t, host_socket_addr, to_ip_addr_t, to_socket_addr, SocketAddr};
use crate::{Error, IoError};
use std::task::Poll;
use tokio::sync::mpsc::{Receiver, Sender};
use vstd::prelude::*;

verus! {

/// The key under which the receive callback finds the socket.
pub const UDP_KEY: usize = 3;

/// What a socket holds.
pub struct UdpView {
    /// The socket's PCB.
    pub pcb: usize,
    /// The datagrams received and not yet read, oldest first.
    pub pending: Seq<DatagramView>,
    /// How many datagrams the queue can hold.
    pub limit: nat,
    /// Whether the reader found the queue empty and waits.
    pub reader_parked: bool,
}

/// What the receive callback tells its caller to do.
#[derive(Clone, Copy, Debug, PartialEq, Eq, Structural)]
pub struct UdpVerdict {
    /// Whether the pbuf is to be freed.
    pub free_pbuf: bool,
    /// Whether the reader is to be woken.
    pub wake: bool,
}

/// The UDP socket.
pub struct UdpSocket {
    pcb: usize,
    reader_parked: bool,
    tx: Sender<Datagram>,
    rx: Receiver<Datagram>,
}

/// Whether an address names a family that the portable form has.
pub open spec fn parseable(addr: IpAddrT) -> bool {
    addr.type_ == IPADDR_TYPE_V4 || addr.type_ == IPADDR_TYPE_V6
}

/// The queue after one more datagram has arrived: it joins unless the queue
/// is full.
pub open spec fn pending_after(queue: Seq<DatagramView>, limit: nat, d: DatagramView) -> Seq<
    DatagramView,
> {
    if queue.len() < limit {
        queue.push(d)
    } else {
        queue
    }
}

impl UdpSocket {
    /// The two ends belong together and the queue is within its limit.
    pub closed spec fn wf(&self) -> bool {
        &&& datagrams_joined(self.tx, self.rx)
        &&& 0 < datagrams_limit(self.rx)
        &&& datagrams_queued(self.rx).len() <= datagrams_limit(self.rx)
    }

    pub closed spec fn view(&self) -> UdpView {
        UdpView {
            pcb: self.pcb,
            pending: datagrams_queued(self.rx),
            limit: datagrams_limit(self.rx),
            reader_parked: self.reader_parked,
        }
    }

    /// The queue never holds more than its limit.
    pub proof fn lemma_pending_bounded(&self)
        requires
            self.wf(),
        ensures
            self@.pending.len() <= self@.limit,
            0 < self@.limit,
    {
    }

    /// The procedure that opens the socket's PCB: create, bind to the
    /// any-address and port 0, register the receive callback.
    pub fn new() -> (setup: UdpSetup)
        ensures
            setup.phase == UdpPhase::Start,
    {
        UdpSetup { phase: UdpPhase::Start }
    }

    /// The socket around a PCB that `UdpSetup` has opened, with an empty
    /// queue of `buffer_size` slots.
    pub fn open(pcb: usize, buffer_size: usize) -> (socket: Self)
        requires
            0 < buffer_size <= MAX_BUFFER,
        ensures
            socket.wf(),
            socket@ == (UdpView {
                pcb,
                pending: Seq::empty(),
                limit: buffer_size as nat,
                reader_parked: false,
            }),
    {
        let (tx, rx) = datagram_channel(buffer_size);
        UdpSocket { pcb, reader_parked: false, tx, rx }
    }

    /// The receive callback for a socket that is alive: the datagram joins
    /// the queue with both addresses in portable form, unless the queue is
    /// full or an address names no family, in which cases it is dropped.
    /// The pbuf is freed and the reader woken either way.
    pub fn receive(
        &mut self,
        payload: Vec<u8>,
        addr: &IpAddrT,
        port: u16,
        dst_addr: &IpAddrT,
        dst_port: u16,
    ) -> (verdict: UdpVerdict)
        requires
            old(self).wf(),
        ensures
            final(self).wf(),
            verdict == (UdpVerdict { free_pbuf: true, wake: old(self)@.reader_parked }),
            final(self)@ == (UdpView {
                pending: if parseable(*addr) && parseable(*dst_addr) {
                    pending_after(
                        old(self)@.pending,
                        old(self)@.limit,
                        (
                            payload@,
                            host_socket_addr(*addr, port),
                            host_socket_addr(*dst_addr, dst_port),
                        ),
                    )
                } else {
                    old(self)@.pending
                },
                ..old(self)@
            }),
    {
        let known = (addr.type_ == IPADDR_TYPE_V4 || addr.type_ == IPADDR_TYPE_V6) && (
        dst_addr.type_ == IPADDR_TYPE_V4 || dst_addr.type_ == IPADDR_TYPE_V6);
        if known {
            let src = to_socket_addr(addr, port);
            let dst = to_socket_addr(dst_addr, dst_port);
            let _ = datagram_try_send(&self.tx, &mut self.rx, (payload, src, dst));
        }
        UdpVerdict { free_pbuf: true, wake: self.reader_parked }
    }

    /// Gives the oldest datagram, or parks the reader where none waits. The
    /// stream of datagrams does not end while the socket lives.
    pub fn poll_next(&mut self) -> (next: Poll<Option<Datagram>>)
        requires
            old(self).wf(),
        ensures
            final(self).wf(),
            old(self)@.pending.len() > 0 ==> {
                &&& next matches Poll::Ready(Some(d))
                &&& datagram_view(d) == old(self)@.pending.first()
                &&& final(self)@ == (UdpView {
                    pending: old(self)@.pending.drop_first(),
                    ..old(self)@
                })
            },
            old(self)@.pending.len() == 0 ==> {
                &&& next is Pending
                &&& final(self)@ == (UdpView { reader_parked: true, ..old(self)@ })
            },
    {
        match datagram_try_recv(&self.tx, &mut self.rx) {
            Some(d) => Poll::Ready(Some(d)),
            None => {
                self.reader_parked = true;
                Poll::Pending
            },
        }
    }

    /// Splits the socket into a half that sends and a half that receives.
    pub fn split(self) -> (halves: (SendHalf, RecvHalf))
        requires
            self.wf(),
        ensures
            halves.0.pcb == self@.pcb,
            halves.1.wf(),
            halves.1@ == self@,
    {
        (SendHalf { pcb: self.pcb }, RecvHalf { socket: self })
    }

    /// What is to be done when the socket is dropped: under the Stack Lock
    /// the receive callback is unregistered and the PCB removed.
    pub fn teardown(&self) -> (script: Script)
        ensures
            script.wf(),
            script.position() == 0,
            script.calls() == unbind_calls(self@.pcb),
    {
        let script = Script::new().followed_by(StackCall::Lock).followed_by(
            StackCall::UdpRecv { pcb: self.pcb, arg: NULL },
        ).followed_by(StackCall::UdpRemove { pcb: self.pcb }).followed_by(StackCall::Unlock);
        assert(script.calls() =~= unbind_calls(self.pcb));
        script
    }
}

/// The calls that take a socket down.
pub open spec fn unbind_calls(pcb: usize) -> Seq<StackCall> {
    seq![
        StackCall::Lock,
        StackCall::UdpRecv { pcb, arg: NULL },
        StackCall::UdpRemove { pcb },
        StackCall::Unlock,
    ]
}

/// The receive callback as the stack calls it. The socket is what the
/// user-data slot names; with a null slot the socket is gone and the
/// datagram is dropped. The pbuf is freed in every case.
pub fn udp_recv_cb(
    socket: Option<&mut UdpSocket>,
    payload: Vec<u8>,
    addr: &IpAddrT,
    port: u16,
    dst_addr: &IpAddrT,
    dst_port: u16,
) -> (verdict: UdpVerdict)
    requires
        socket matches Some(s) ==> s.wf(),
    ensures
        match socket {
            None => verdict == (UdpVerdict { free_pbuf: true, wake: false }),
            Some(s) => {
                &&& final(s).wf()
                &&& verdict == (UdpVerdict { free_pbuf: true, wake: s@.reader_parked })
                &&& final(s)@ == (UdpView {
                    pending: if parseable(*addr) && parseable(*dst_addr) {
                        pending_after(
                            s@.pending,
                            s@.limit,
                            (
                                payload@,
                                host_socket_addr(*addr, port),
                                host_socket_addr(*dst_addr, dst_port),
                            ),
                        )
                    } else {
                        s@.pending
                    },
                    ..s@
                })
            },
        },
{
    match socket {
        None => UdpVerdict { free_pbuf: true, wake: false },
        Some(s) => s.receive(payload, addr, port, dst_addr, dst_port),
    }
}

/// The half of a socket that sends. It holds the PCB's address only, so it
/// can be copied freely.
#[derive(Clone, Copy, Debug, PartialEq, Eq, Structural)]
pub struct SendHalf {
    pub pcb: usize,
}

impl SendHalf {
    /// Begins the sending of a datagram of `len` bytes from `src_addr` to
    /// `dst_addr`. The bytes stay with the caller for as long as the
    /// procedure runs.
    pub fn send_to(&self, len: usize, src_addr: &SocketAddr, dst_addr: &SocketAddr) -> (send:
        UdpSend)
        ensures
            send == (UdpSend {
                phase: SendPhase::Start,
                pcb: self.pcb,
                len,
                src: host_ip_addr_t(*src_addr),
                src_port: src_addr.port(),
                dst: host_ip_addr_t(*dst_addr),
                dst_port: dst_addr.port(),
                pbuf: NULL,
            }),
    {
        UdpSend {
            phase: SendPhase::Start,
            pcb: self.pcb,
            len,
            src: to_ip_addr_t(src_addr),
            src_port: src_addr.port(),
            dst: to_ip_addr_t(dst_addr),
            dst_port: dst_addr.port(),
            pbuf: NULL,
        }
    }
}

/// The half of a socket that receives. It owns the socket.
pub struct RecvHalf {
    socket: UdpSocket,
}

impl RecvHalf {
    /// The socket is well-formed.
    pub closed spec fn wf(&self) -> bool {
        self.socket.wf()
    }

    pub closed spec fn view(&self) -> UdpView {
        self.socket@
    }

    /// Gives the oldest datagram with where it came from and where it was
    /// going, or parks the reader where none waits.
    pub fn recv_from(&mut self) -> (got: Poll<Result<Datagram, IoError>>)
        requires
            old(self).wf(),
        ensures
            final(self).wf(),
            old(self)@.pending.len() > 0 ==> {
                &&& got matches Poll::Ready(Ok(d))
                &&& datagram_view(d) == old(self)@.pending.first()
                &&& final(self)@ == (UdpView {
                    pending: old(self)@.pending.drop_first(),
                    ..old(self)@
                })
            },
            old(self)@.pending.len() == 0 ==> {
                &&& got is Pending
                &&& final(self)@ == (UdpView { reader_parked: true, ..old(self)@ })
            },
    {
        match self.socket.poll_next() {
            Poll::Ready(Some(d)) => Poll::Ready(Ok(d)),
            _ => Poll::Pending,
        }
    }

    /// Gives the oldest datagram, or parks the reader where none waits.
    pub fn poll_next(&mut self) -> (next: Poll<Option<Datagram>>)
        requires
            old(self).wf(),
        ensures
            final(self).wf(),
            old(self)@.pending.len() > 0 ==> {
                &&& next matches Poll::Ready(Some(d))
                &&& datagram_view(d) == old(self)@.pending.first()
                &&& final(self)@ == (UdpView {
                    pending: old(self)@.pending.drop_first(),
                    ..old(self)@
                })
            },
            old(self)@.pending.len() == 0 ==> {
                &&& next is Pending
                &&& final(self)@ == (UdpView { reader_parked: true, ..old(self)@ })
            },
    {
        self.socket.poll_next()
    }

    /// The receive callback, for a socket that has been split.
    pub fn receive(
        &mut self,
        payload: Vec<u8>,
        addr: &IpAddrT,
        port: u16,
        dst_addr: &IpAddrT,
        dst_port: u16,
    ) -> (verdict: UdpVerdict)
        requires
            old(self).wf(),
        ensures
            final(self).wf(),
            verdict == (UdpVerdict { free_pbuf: true, wake: old(self)@.reader_parked }),
            final(self)@ == (UdpView {
                pending: if parseable(*addr) && parseable(*dst_addr) {
                    pending_after(
                        old(self)@.pending,
                        old(self)@.limit,
                        (
                            payload@,
                            host_socket_addr(*addr, port),
                            host_socket_addr(*dst_addr, dst_port),
                        ),
                    )
                } else {
                    old(self)@.pending
                },
                ..old(self)@
            }),
    {
        self.socket.receive(payload, addr, port, dst_addr, dst_port)
    }

    /// What is to be done when the receiving half is dropped.
    pub fn teardown(&self) -> (script: Script)
        ensures
            script.wf(),
            script.position() == 0,
            script.calls() == unbind_calls(self@.pcb),
    {
        self.socket.teardown()
    }
}

/// Where the opening of the socket's PCB stands.
#[derive(Clone, Copy, Debug, PartialEq, Eq)]
pub enum UdpPhase {
    /// Nothing has been asked of the driver yet.
    Start,
    /// The lock was asked for.
    Locking,
    /// A PCB was asked for.
    Creating,
    /// The bind of this PCB was asked for.
    Binding(usize),
    /// The receive callback was registered on this PCB.
    Registering(usize),
    /// The PCB was removed after the failure with this code.
    Releasing(i8),
    /// The release of the lock was asked for.
    Unlocking(Result<usize, Error>),
    /// The opening has ended with this result.
    Finished(Result<usize, Error>),
}

/// The opening of the socket's PCB. It gives the PCB, or the stack's
/// numeric reason; after a failure no PCB is left behind.
#[derive(Clone, Copy, Debug, PartialEq, Eq)]
pub struct UdpSetup {
    /// Where the opening stands.
    pub phase: UdpPhase,
}

impl UdpSetup {
    /// Whether the opening holds the Stack Lock.
    pub open spec fn holds_lock(&self) -> bool {
        !(self.phase is Start || self.phase is Unlocking || self.phase is Finished)
    }

    /// The phase that follows on an answer and what is handed to the driver.
    pub open spec fn spec_step(&self, reply: StackReply) -> (UdpPhase, Step<Result<usize, Error>>) {
        match self.phase {
            UdpPhase::Start => (UdpPhase::Locking, Step::Call(StackCall::Lock)),
            UdpPhase::Locking => (UdpPhase::Creating, Step::Call(StackCall::UdpNew)),
            UdpPhase::Creating => if reply.handle() == NULL {
                (UdpPhase::Unlocking(Err(Error::LwIP(ERR_MEM))), Step::Call(StackCall::Unlock))
            } else {
                (
                    UdpPhase::Binding(reply.handle()),
                    Step::Call(
                        StackCall::UdpBind {
                            pcb: reply.handle(),
                            addr: ip_addr_any_type(),
                            port: 0,
                        },
                    ),
                )
            },
            UdpPhase::Binding(pcb) => if reply.status() != ERR_OK {
                (UdpPhase::Releasing(reply.status()), Step::Call(StackCall::UdpRemove { pcb }))
            } else {
                (
                    UdpPhase::Registering(pcb),
                    Step::Call(StackCall::UdpRecv { pcb, arg: UDP_KEY }),
                )
            },
            UdpPhase::Registering(pcb) => (
                UdpPhase::Unlocking(Ok(pcb)),
                Step::Call(StackCall::Unlock),
            ),
            UdpPhase::Releasing(code) => (
                UdpPhase::Unlocking(Err(Error::LwIP(code))),
                Step::Call(StackCall::Unlock),
            ),
            UdpPhase::Unlocking(result) => (UdpPhase::Finished(result), Step::Done(result)),
            UdpPhase::Finished(result) => (UdpPhase::Finished(result), Step::Done(result)),
        }
    }

    /// Takes the answer to the call handed out last (any answer on the
    /// first turn) and hands out the next call or the result.
    pub fn step(&mut self, reply: StackReply) -> (next: Step<Result<usize, Error>>)
        ensures
            (final(self).phase, next) == old(self).spec_step(reply),
            step_obeys(old(self).holds_lock(), next, final(self).holds_lock()),
    {
        match self.phase {
            UdpPhase::Start => {
                self.phase = UdpPhase::Locking;
                Step::Call(StackCall::Lock)
            },
            UdpPhase::Locking => {
                self.phase = UdpPhase::Creating;
                Step::Call(StackCall::UdpNew)
            },
            UdpPhase::Creating => {
                let pcb = reply.handle();
                if pcb == NULL {
                    self.phase = UdpPhase::Unlocking(Err(Error::LwIP(ERR_MEM)));
                    Step::Call(StackCall::Unlock)
                } else {
                    self.phase = UdpPhase::Binding(pcb);
                    Step::Call(StackCall::UdpBind { pcb, addr: ip_addr_any_type(), port: 0 })
                }
            },
            UdpPhase::Binding(pcb) => {
                let status = reply.status();
                if status != ERR_OK {
                    self.phase = UdpPhase::Releasing(status);
                    Step::Call(StackCall::UdpRemove { pcb })
                } else {
                    self.phase = UdpPhase::Registering(pcb);
                    Step::Call(StackCall::UdpRecv { pcb, arg: UDP_KEY })
                }
            },
            UdpPhase::Registering(pcb) => {
                self.phase = UdpPhase::Unlocking(Ok(pcb));
                Step::Call(StackCall::Unlock)
            },
            UdpPhase::Releasing(code) => {
                self.phase = UdpPhase::Unlocking(Err(Error::LwIP(code)));
                Step::Call(StackCall::Unlock)
            },
            UdpPhase::Unlocking(result) => {
                self.phase = UdpPhase::Finished(result);
                Step::Done(result)
            },
            UdpPhase::Finished(result) => Step::Done(result),
        }
    }
}

/// Where the sending of a datagram stands.
#[derive(Clone, Copy, Debug, PartialEq, Eq)]
pub enum SendPhase {
    /// Nothing has been asked of the driver yet.
    Start,
    /// The lock was asked for.
    Locking,
    /// A pbuf that refers to the caller's bytes was asked for.
    Allocating,
    /// The stack was asked to send.
    Sending,
    /// The release of the pbuf was asked for.
    Freeing(Result<(), IoError>),
    /// The release of the lock was asked for.
    Unlocking(Result<(), IoError>),
    /// The sending has ended with this result.
    Finished(Result<(), IoError>),
}

/// The sending of one datagram: under the Stack Lock, a pbuf that refers to
/// the caller's bytes is handed to the stack with the source and the
/// destination in native form, and freed again.
#[derive(Clone, Copy, Debug, PartialEq, Eq)]
pub struct UdpSend {
    /// Where the sending stands.
    pub phase: SendPhase,
    /// The socket's PCB.
    pub pcb: usize,
    /// The length of the datagram.
    pub len: usize,
    /// The source address in native form.
    pub src: IpAddrT,
    pub src_port: u16,
    /// The destination address in native form.
    pub dst: IpAddrT,
    pub dst_port: u16,
    /// The pbuf that refers to the caller's bytes, once allocated.
    pub pbuf: usize,
}

impl UdpSend {
    /// Whether the sending holds the Stack Lock.
    pub open spec fn holds_lock(&self) -> bool {
        self.phase is Locking || self.phase is Allocating || self.phase is Sending
            || self.phase is Freeing
    }

    /// The phase that follows on an answer, the pbuf held then, and what is
    /// handed to the driver.
    ///
    /// A datagram too long for one pbuf is refused as the stack refuses an
    /// illegal argument, and want of a pbuf is reported as want of memory,
    /// both without a call to send. Otherwise the stack's answer decides
    /// the result, and the pbuf is freed whatever the answer.
    pub open spec fn spec_step(&self, reply: StackReply) -> (SendPhase, usize, Step<
        Result<(), IoError>,
    >) {
        match self.phase {
            SendPhase::Start => if self.len > MAX_CHUNK {
                let refused = Err(IoError::UdpSendto(ERR_ARG));
                (SendPhase::Finished(refused), self.pbuf, Step::Done(refused))
            } else {
                (SendPhase::Locking, self.pbuf, Step::Call(StackCall::Lock))
            },
            SendPhase::Locking => (
                SendPhase::Allocating,
                self.pbuf,
                Step::Call(StackCall::PbufAllocReference { len: self.len as u16 }),
            ),
            SendPhase::Allocating => if reply.handle() == NULL {
                (
                    SendPhase::Unlocking(Err(IoError::UdpSendto(ERR_MEM))),
                    NULL,
                    Step::Call(StackCall::Unlock),
                )
            } else {
                (
                    SendPhase::Sending,
                    reply.handle(),
                    Step::Call(
                        StackCall::UdpSendto {
                            pcb: self.pcb,
                            pbuf: reply.handle(),
                            dst: self.dst,
                            dst_port: self.dst_port,
                            src: self.src,
                            src_port: self.src_port,
                        },
                    ),
                )
            },
            SendPhase::Sending => (
                SendPhase::Freeing(
                    if reply.status() == ERR_OK {
                        Ok(())
                    } else {
                        Err(IoError::UdpSendto(reply.status()))
                    },
                ),
                self.pbuf,
                Step::Call(StackCall::PbufFree { pbuf: self.pbuf }),
            ),
            SendPhase::Freeing(result) => (
                SendPhase::Unlocking(result),
                self.pbuf,
                Step::Call(StackCall::Unlock),
            ),
            SendPhase::Unlocking(result) => (
                SendPhase::Finished(result),
                self.pbuf,
                Step::Done(result),
            ),
            SendPhase::Finished(result) => (
                SendPhase::Finished(result),
                self.pbuf,
                Step::Done(result),
            ),
        }
    }

    /// Takes the answer to the call handed out last (any answer on the
    /// first turn) and hands out the next call or the result.
    pub fn step(&mut self, reply: StackReply) -> (next: Step<Result<(), IoError>>)
        ensures
            (final(self).phase, final(self).pbuf, next) == old(self).spec_step(reply),
            *final(self) == (UdpSend {
                phase: final(self).phase,
                pbuf: final(self).pbuf,
                ..*old(self)
            }),
            step_obeys(old(self).holds_lock(), next, final(self).holds_lock()),
    {
        match self.phase {
            SendPhase::Start => {
                if self.len > MAX_CHUNK {
                    let refused = Err(IoError::UdpSendto(ERR_ARG));
                    self.phase = SendPhase::Finished(refused);
                    Step::Done(refused)
                } else {
                    self.phase = SendPhase::Locking;
                    Step::Call(StackCall::Lock)
                }
            },
            SendPhase::Locking => {
                self.phase = SendPhase::Allocating;
                Step::Call(StackCall::PbufAllocReference { len: self.len as u16 })
            },
            SendPhase::Allocating => {
                let pbuf = reply.handle();
                if pbuf == NULL {
                    self.pbuf = NULL;
                    self.phase = SendPhase::Unlocking(Err(IoError::UdpSendto(ERR_MEM)));
                    Step::Call(StackCall::Unlock)
                } else {
                    self.pbuf = pbuf;
                    self.phase = SendPhase::Sending;
                    Step::Call(
                        StackCall::UdpSendto {
                            pcb: self.pcb,
                            pbuf,
                            dst: self.dst,
                            dst_port: self.dst_port,
                            src: self.src,
                            src_port: self.src_port,
                        },
                    )
                }
            },
            SendPhase::Sending => {
                let status = reply.status();
                let result = if status == ERR_OK {
                    Ok(())
                } else {
                    Err(IoError::UdpSendto(status))
                };
                self.phase = SendPhase::Freeing(result);
                Step::Call(StackCall::PbufFree { pbuf: self.pbuf })
            },
            SendPhase::Freeing(result) => {
                self.phase = SendPhase::Unlocking(result);
                Step::Call(StackCall::Unlock)
            },
            SendPhase::Unlocking(result) => {
                self.phase = SendPhase::Finished(result);
                Step::Done(result)
            },
            SendPhase::Finished(result) => Step::Done(result),
        }
    }
}

} // verus!
