//! The TCP listener that keeps its pending connections in a channel.
//!
//! It behaves as [`TcpListenerImpl`](crate::tcp_listener_impl::TcpListenerImpl)
//! does; the pending connections wait in an unbounded `tokio` channel whose
//! sending end the accept callback uses and whose receiving end the acceptor
//! drains.

use crate::channel::{
    accept_channel, accept_send, accept_try_recv, accepts_joined, accepts_queued,
};
use crate::lwip::{IpAddrT, ERR_CONN, ERR_MEM, ERR_OK, NULL};
use crate::script::Script;
use crate::tcp_listener_impl::{
    listener_teardown, refusal, takes, unlisten_calls, AcceptVerdict, Accepted, ListenPhase,
    ListenerSetup, ListenerView, FIRST_STREAM_KEY, LAST_STREAM_KEY,
};
use crate::tcp_stream::TcpStream;
use crate::util::host_socket_addr;
use std::task::Poll;
use tokio::sync::mpsc::{UnboundedReceiver, UnboundedSender};
use vstd::prelude::*;

verus! {

/// The listener with a channel.
pub struct TcpListener {
    tpcb: usize,
    sender: UnboundedSender<Accepted>,
    receiver: UnboundedReceiver<Accepted>,
    acceptor_parked: bool,
    next_key: usize,
}

impl TcpListener {
    /// The two ends belong together, and no more connections wait than keys
    /// were handed out.
    pub closed spec fn wf(&self) -> bool {
        &&& accepts_joined(self.sender, self.receiver)
        &&& FIRST_STREAM_KEY <= self.next_key <= LAST_STREAM_KEY
        &&& accepts_queued(self.receiver).len() <= self.next_key - FIRST_STREAM_KEY
    }

    pub closed spec fn view(&self) -> ListenerView {
        ListenerView {
            tpcb: self.tpcb,
            pending: accepts_queued(self.receiver),
            acceptor_parked: self.acceptor_parked,
            next_key: self.next_key,
        }
    }

    /// The procedure that opens a listening PCB: create, bind to the
    /// any-address and port 0, listen, set the user-data slot, register the
    /// accept callback.
    pub fn new() -> (setup: ListenerSetup)
        ensures
            setup.phase == ListenPhase::Start,
    {
        ListenerSetup { phase: ListenPhase::Start }
    }

    /// The listener around a listening PCB that `ListenerSetup` has opened:
    /// nothing pending, nobody waiting.
    pub fn open(tpcb: usize) -> (listener: Self)
        ensures
            listener.wf(),
            listener@ == (ListenerView {
                tpcb,
                pending: Seq::empty(),
                acceptor_parked: false,
                next_key: FIRST_STREAM_KEY,
            }),
    {
        let (sender, receiver) = accept_channel();
        TcpListener { tpcb, sender, receiver, acceptor_parked: false, next_key: FIRST_STREAM_KEY }
    }

    /// The accept callback for a listener that is alive.
    ///
    /// Where the stack has no PCB to give or reports an error there is
    /// nothing to do. Otherwise the connection gets the next key, its stream
    /// is made with the endpoints read from the PCB, the connection joins
    /// the pending ones and the acceptor is woken.
    pub fn accept(
        &mut self,
        newpcb: usize,
        err: i8,
        local_ip: &IpAddrT,
        local_port: u16,
        remote_ip: &IpAddrT,
        remote_port: u16,
    ) -> (verdict: AcceptVerdict)
        requires
            old(self).wf(),
        ensures
            final(self).wf(),
            !takes(newpcb, err, old(self)@.next_key) ==> {
                &&& final(self)@ == old(self)@
                &&& verdict.is_bare(refusal(newpcb, err))
            },
            takes(newpcb, err, old(self)@.next_key) ==> {
                let local = host_socket_addr(*local_ip, local_port);
                let remote = host_socket_addr(*remote_ip, remote_port);
                let key = old(self)@.next_key;
                &&& verdict.is_accept(newpcb, key, local, remote, old(self)@.acceptor_parked)
                &&& final(self)@ == (ListenerView {
                    pending: old(self)@.pending.push(Accepted { key, local, remote }),
                    next_key: (key + 1) as usize,
                    ..old(self)@
                })
            },
    {
        if newpcb == NULL || err != ERR_OK {
            return AcceptVerdict::bare(ERR_OK);
        }
        if self.next_key >= LAST_STREAM_KEY {
            return AcceptVerdict::bare(ERR_MEM);
        }
        let key = self.next_key;
        let (stream, calls) = TcpStream::new(
            newpcb,
            key,
            local_ip,
            local_port,
            remote_ip,
            remote_port,
        );
        accept_send(
            &self.sender,
            &mut self.receiver,
            Accepted { key, local: stream.local_addr(), remote: stream.remote_addr() },
        );
        self.next_key = key + 1;
        AcceptVerdict { ret: ERR_OK, stream: Some(stream), calls, wake: self.acceptor_parked }
    }

    /// Gives the oldest pending connection, or parks the acceptor where none
    /// is pending. The stream of connections does not end while the
    /// listener lives.
    pub fn poll_next(&mut self) -> (next: Poll<Option<Accepted>>)
        requires
            old(self).wf(),
        ensures
            final(self).wf(),
            old(self)@.pending.len() > 0 ==> {
                &&& next == Poll::Ready(Some(old(self)@.pending.first()))
                &&& final(self)@ == (ListenerView {
                    pending: old(self)@.pending.drop_first(),
                    ..old(self)@
                })
            },
            old(self)@.pending.len() == 0 ==> {
                &&& next is Pending
                &&& final(self)@ == (ListenerView { acceptor_parked: true, ..old(self)@ })
            },
    {
        match accept_try_recv(&self.sender, &mut self.receiver) {
            Some(accepted) => Poll::Ready(Some(accepted)),
            None => {
                self.acceptor_parked = true;
                Poll::Pending
            },
        }
    }

    /// What is to be done when the listener is dropped: under the Stack
    /// Lock the user-data slot is nulled, the accept callback unregistered
    /// and the PCB closed.
    pub fn teardown(&self) -> (script: Script)
        ensures
            script.wf(),
            script.position() == 0,
            script.calls() == unlisten_calls(self@.tpcb),
    {
        listener_teardown(self.tpcb)
    }
}

/// The accept callback as the stack calls it. The listener is what the
/// user-data slot names; a null slot means that the listener is gone, and
/// the stack is told that there is no connection.
pub fn tcp_accept_cb(
    listener: Option<&mut TcpListener>,
    newpcb: usize,
    err: i8,
    local_ip: &IpAddrT,
    local_port: u16,
    remote_ip: &IpAddrT,
    remote_port: u16,
) -> (verdict: AcceptVerdict)
    requires
        listener matches Some(l) ==> l.wf(),
    ensures
        match listener {
            None => verdict.is_bare(ERR_CONN),
            Some(l) => {
                &&& final(l).wf()
                &&& !takes(newpcb, err, l@.next_key) ==> {
                    &&& final(l)@ == l@
                    &&& verdict.is_bare(refusal(newpcb, err))
                }
                &&& takes(newpcb, err, l@.next_key) ==> {
                    let local = host_socket_addr(*local_ip, local_port);
                    let remote = host_socket_addr(*remote_ip, remote_port);
                    let key = l@.next_key;
                    &&& verdict.is_accept(newpcb, key, local, remote, l@.acceptor_parked)
                    &&& final(l)@ == (ListenerView {
                        pending: l@.pending.push(Accepted { key, local, remote }),
                        next_key: (key + 1) as usize,
                        ..l@
                    })
                }
            },
        },
{
    match listener {
        None => AcceptVerdict::bare(ERR_CONN),
        Some(l) => l.accept(newpcb, err, local_ip, local_port, remote_ip, remote_port),
    }
}

} // verus!
