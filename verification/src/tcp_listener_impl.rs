//! The TCP listener that keeps its pending connections in a queue of its
//! own.
//!
//! The listener holds a passively opened PCB bound to the any-address. Each
//! connection the stack accepts becomes a stream, which the accept callback
//! hands to its caller under a fresh key, and an entry in the queue of
//! connections that nobody has taken yet.

use crate::lwip::{
    ip_addr_any_type, IpAddrT, StackCall, StackReply, Step, ERR_CONN, ERR_MEM, ERR_OK, NULL,
    TCP_DEFAULT_LISTEN_BACKLOG,
};
use crate::mutex::{disciplined, held_at_end, step_obeys};
use crate::script::Script;
use crate::tcp_stream::{attach_calls, TcpStream};
use crate::util::{host_socket_addr, SocketAddr};
use crate::Error;
use std::collections::VecDeque;
use std::task::Poll;
use vstd::prelude::*;

verus! {

/// The key under which the accept callback finds the listener.
pub const LISTENER_KEY: usize = 2;

/// The key of the first stream a listener accepts; later streams count up.
pub const FIRST_STREAM_KEY: usize = 16;

/// The key after which a listener accepts no more.
pub const LAST_STREAM_KEY: usize = usize::MAX / 2;

/// One accepted connection that waits to be taken: the key under which its
/// stream was handed out, and the two endpoints read from its PCB.
#[derive(Clone, Copy, Debug, PartialEq, Eq)]
pub struct Accepted {
    pub key: usize,
    pub local: SocketAddr,
    pub remote: SocketAddr,
}

/// What the accept callback tells its caller.
pub struct AcceptVerdict {
    /// The callback's result for the stack.
    pub ret: i8,
    /// The stream of the new connection, to be kept under its key.
    pub stream: Option<TcpStream>,
    /// The calls that attach the stream to its PCB, to be made at once.
    pub calls: Vec<StackCall>,
    /// Whether the acceptor is to be woken.
    pub wake: bool,
}

impl AcceptVerdict {
    /// A verdict that only answers the stack.
    pub open spec fn is_bare(&self, ret: i8) -> bool {
        self.ret == ret && self.stream is None && self.calls@.len() == 0 && !self.wake
    }

    /// A verdict that accepts a connection under a key.
    pub open spec fn is_accept(
        &self,
        pcb: usize,
        key: usize,
        local: SocketAddr,
        remote: SocketAddr,
        wake: bool,
    ) -> bool {
        &&& self.ret == ERR_OK
        &&& self.wake == wake
        &&& self.calls@ == attach_calls(pcb, key)
        &&& self.stream matches Some(stream)
        &&& stream.wf()
        &&& stream@.unack_conserved()
        &&& stream@.pcb == pcb
        &&& stream@.key == key
        &&& stream@.local == local
        &&& stream@.remote == remote
        &&& stream@.buffered.len() == 0
        &&& stream@.unacked == 0
        &&& stream@.error is None
        &&& !stream@.read_closed
        &&& !stream@.write_closed
    }

    /// A verdict that only answers the stack.
    pub(crate) fn bare(ret: i8) -> (verdict: Self)
        ensures
            verdict.is_bare(ret),
    {
        AcceptVerdict { ret, stream: None, calls: Vec::new(), wake: false }
    }
}

/// Whether the accept callback takes the connection: the stack offers a PCB
/// without an error, and a key is left.
pub open spec fn takes(newpcb: usize, err: i8, next_key: usize) -> bool {
    newpcb != NULL && err == ERR_OK && next_key < LAST_STREAM_KEY
}

/// The callback's answer where it does not take the connection: nothing to
/// do where the stack has no PCB or reports an error, and out of memory
/// where the keys are used up.
pub open spec fn refusal(newpcb: usize, err: i8) -> i8 {
    if newpcb == NULL || err != ERR_OK {
        ERR_OK
    } else {
        ERR_MEM
    }
}

/// What a listener holds.
pub struct ListenerView {
    /// The listening PCB.
    pub tpcb: usize,
    /// The accepted connections that nobody has taken, oldest first.
    pub pending: Seq<Accepted>,
    /// Whether the acceptor found nothing pending and waits.
    pub acceptor_parked: bool,
    /// The key the next accepted stream gets.
    pub next_key: usize,
}

/// The listener with a queue of its own.
pub struct TcpListenerImpl {
    tpcb: usize,
    acceptor_parked: bool,
    queue: VecDeque<Accepted>,
    next_key: usize,
}

impl TcpListenerImpl {
    pub closed spec fn view(&self) -> ListenerView {
        ListenerView {
            tpcb: self.tpcb,
            pending: self.queue@,
            acceptor_parked: self.acceptor_parked,
            next_key: self.next_key,
        }
    }

    /// The procedure that opens a listening PCB: create, bind to the
    /// any-address and port 0, listen, set the user-data slot, register the
    /// accept callback.
    pub fn new() -> (setup: ListenerSetup)
        ensures
            setup.phase == ListenPhase::Start,
    {
        ListenerSetup { phase: ListenPhase::Start }
    }

    /// The listener around a listening PCB that `ListenerSetup` has opened:
    /// nothing pending, nobody waiting.
    pub fn open(tpcb: usize) -> (listener: Self)
        ensures
            listener@ == (ListenerView {
                tpcb,
                pending: Seq::empty(),
                acceptor_parked: false,
                next_key: FIRST_STREAM_KEY,
            }),
    {
        TcpListenerImpl {
            tpcb,
            acceptor_parked: false,
            queue: VecDeque::new(),
            next_key: FIRST_STREAM_KEY,
        }
    }

    /// The accept callback for a listener that is alive.
    ///
    /// Where the stack has no PCB to give or reports an error there is
    /// nothing to do. Otherwise the connection gets the next key, its stream
    /// is made with the endpoints read from the PCB, the connection joins
    /// the pending ones and the acceptor is woken.
    pub fn accept(
        &mut self,
        newpcb: usize,
        err: i8,
        local_ip: &IpAddrT,
        local_port: u16,
        remote_ip: &IpAddrT,
        remote_port: u16,
    ) -> (verdict: AcceptVerdict)
        ensures
            !takes(newpcb, err, old(self)@.next_key) ==> {
                &&& *final(self) == *old(self)
                &&& verdict.is_bare(refusal(newpcb, err))
            },
            takes(newpcb, err, old(self)@.next_key) ==> {
                let local = host_socket_addr(*local_ip, local_port);
                let remote = host_socket_addr(*remote_ip, remote_port);
                let key = old(self)@.next_key;
                &&& verdict.is_accept(newpcb, key, local, remote, old(self)@.acceptor_parked)
                &&& final(self)@ == (ListenerView {
                    pending: old(self)@.pending.push(Accepted { key, local, remote }),
                    next_key: (key + 1) as usize,
                    ..old(self)@
                })
            },
    {
        if newpcb == NULL || err != ERR_OK {
            return AcceptVerdict::bare(ERR_OK);
        }
        if self.next_key >= LAST_STREAM_KEY {
            return AcceptVerdict::bare(ERR_MEM);
        }
        let key = self.next_key;
        let (stream, calls) = TcpStream::new(
            newpcb,
            key,
            local_ip,
            local_port,
            remote_ip,
            remote_port,
        );
        self.queue.push_back(
            Accepted { key, local: stream.local_addr(), remote: stream.remote_addr() },
        );
        self.next_key = key + 1;
        AcceptVerdict { ret: ERR_OK, stream: Some(stream), calls, wake: self.acceptor_parked }
    }

    /// Gives the oldest pending connection, or parks the acceptor where none
    /// is pending. The stream of connections does not end while the
    /// listener lives.
    pub fn poll_next(&mut self) -> (next: Poll<Option<Accepted>>)
        ensures
            old(self)@.pending.len() > 0 ==> {
                &&& next == Poll::Ready(Some(old(self)@.pending.first()))
                &&& final(self)@ == (ListenerView {
                    pending: old(self)@.pending.drop_first(),
                    ..old(self)@
                })
            },
            old(self)@.pending.len() == 0 ==> {
                &&& next is Pending
                &&& final(self)@ == (ListenerView { acceptor_parked: true, ..old(self)@ })
            },
    {
        match self.queue.pop_front() {
            Some(accepted) => {
                assert(self.queue@ =~= old(self).queue@.drop_first());
                Poll::Ready(Some(accepted))
            },
            None => {
                self.acceptor_parked = true;
                Poll::Pending
            },
        }
    }

    /// What is to be done when the listener is dropped: under the Stack
    /// Lock the user-data slot is nulled, the accept callback unregistered
    /// and the PCB closed.
    pub fn teardown(&self) -> (script: Script)
        ensures
            script.wf(),
            script.position() == 0,
            script.calls() == unlisten_calls(self@.tpcb),
    {
        listener_teardown(self.tpcb)
    }
}

/// The script that takes a listening PCB down.
pub(crate) fn listener_teardown(tpcb: usize) -> (script: Script)
    ensures
        script.wf(),
        script.position() == 0,
        script.calls() == unlisten_calls(tpcb),
{
    let script = Script::new().followed_by(StackCall::Lock).followed_by(
        StackCall::TcpArg { pcb: tpcb, arg: NULL },
    ).followed_by(StackCall::TcpAccept { pcb: tpcb, on: false }).followed_by(
        StackCall::TcpClose { pcb: tpcb },
    ).followed_by(StackCall::Unlock);
    assert(script.calls() =~= unlisten_calls(tpcb));
    script
}

/// The calls that take a listener down.
pub open spec fn unlisten_calls(tpcb: usize) -> Seq<StackCall> {
    seq![
        StackCall::Lock,
        StackCall::TcpArg { pcb: tpcb, arg: NULL },
        StackCall::TcpAccept { pcb: tpcb, on: false },
        StackCall::TcpClose { pcb: tpcb },
        StackCall::Unlock,
    ]
}

/// The accept callback as the stack calls it. The listener is what the
/// user-data slot names; a null slot means that the listener is gone, and
/// the stack is told that there is no connection.
pub fn tcp_accept_cb(
    listener: Option<&mut TcpListenerImpl>,
    newpcb: usize,
    err: i8,
    local_ip: &IpAddrT,
    local_port: u16,
    remote_ip: &IpAddrT,
    remote_port: u16,
) -> (verdict: AcceptVerdict)
    ensures
        match listener {
            None => verdict.is_bare(ERR_CONN),
            Some(l) => {
                &&& !takes(newpcb, err, l@.next_key) ==> {
                    &&& *final(l) == *l
                    &&& verdict.is_bare(refusal(newpcb, err))
                }
                &&& takes(newpcb, err, l@.next_key) ==> {
                    let local = host_socket_addr(*local_ip, local_port);
                    let remote = host_socket_addr(*remote_ip, remote_port);
                    let key = l@.next_key;
                    &&& verdict.is_accept(newpcb, key, local, remote, l@.acceptor_parked)
                    &&& final(l)@ == (ListenerView {
                        pending: l@.pending.push(Accepted { key, local, remote }),
                        next_key: (key + 1) as usize,
                        ..l@
                    })
                }
            },
        },
{
    match listener {
        None => AcceptVerdict::bare(ERR_CONN),
        Some(l) => l.accept(newpcb, err, local_ip, local_port, remote_ip, remote_port),
    }
}

/// Where the opening of a listening PCB stands.
#[derive(Clone, Copy, Debug, PartialEq, Eq)]
pub enum ListenPhase {
    /// Nothing has been asked of the driver yet.
    Start,
    /// The lock was asked for.
    Locking,
    /// A PCB was asked for.
    Creating,
    /// The bind of this PCB was asked for.
    Binding(usize),
    /// The listen on this PCB was asked for.
    Listening(usize),
    /// The user-data slot of this listening PCB was set.
    Arming(usize),
    /// The accept callback was registered on this listening PCB.
    Registering(usize),
    /// The PCB was closed after the failure with this code.
    Releasing(i8),
    /// The release of the lock was asked for.
    Unlocking(Result<usize, Error>),
    /// The opening has ended with this result.
    Finished(Result<usize, Error>),
}

/// The opening of a listening PCB. It gives the listening PCB, or the
/// stack's numeric reason; after a failure no PCB is left behind.
#[derive(Clone, Copy, Debug, PartialEq, Eq)]
pub struct ListenerSetup {
    /// Where the opening stands.
    pub phase: ListenPhase,
}

impl ListenerSetup {
    /// Whether the opening holds the Stack Lock.
    pub open spec fn holds_lock(&self) -> bool {
        !(self.phase is Start || self.phase is Unlocking || self.phase is Finished)
    }

    /// The phase that follows on an answer and what is handed to the driver.
    pub open spec fn spec_step(&self, reply: StackReply) -> (ListenPhase, Step<
        Result<usize, Error>,
    >) {
        match self.phase {
            ListenPhase::Start => (ListenPhase::Locking, Step::Call(StackCall::Lock)),
            ListenPhase::Locking => (ListenPhase::Creating, Step::Call(StackCall::TcpNew)),
            ListenPhase::Creating => if reply.handle() == NULL {
                (
                    ListenPhase::Unlocking(Err(Error::LwIP(ERR_MEM))),
                    Step::Call(StackCall::Unlock),
                )
            } else {
                (
                    ListenPhase::Binding(reply.handle()),
                    Step::Call(
                        StackCall::TcpBind {
                            pcb: reply.handle(),
                            addr: ip_addr_any_type(),
                            port: 0,
                        },
                    ),
                )
            },
            ListenPhase::Binding(pcb) => if reply.status() != ERR_OK {
                (ListenPhase::Releasing(reply.status()), Step::Call(StackCall::TcpClose { pcb }))
            } else {
                (
                    ListenPhase::Listening(pcb),
                    Step::Call(StackCall::TcpListen { pcb, backlog: TCP_DEFAULT_LISTEN_BACKLOG }),
                )
            },
            ListenPhase::Listening(pcb) => if reply.handle() == NULL {
                (ListenPhase::Releasing(reply.status()), Step::Call(StackCall::TcpClose { pcb }))
            } else {
                (
                    ListenPhase::Arming(reply.handle()),
                    Step::Call(StackCall::TcpArg { pcb: reply.handle(), arg: LISTENER_KEY }),
                )
            },
            ListenPhase::Arming(tpcb) => (
                ListenPhase::Registering(tpcb),
                Step::Call(StackCall::TcpAccept { pcb: tpcb, on: true }),
            ),
            ListenPhase::Registering(tpcb) => (
                ListenPhase::Unlocking(Ok(tpcb)),
                Step::Call(StackCall::Unlock),
            ),
            ListenPhase::Releasing(code) => (
                ListenPhase::Unlocking(Err(Error::LwIP(code))),
                Step::Call(StackCall::Unlock),
            ),
            ListenPhase::Unlocking(result) => (ListenPhase::Finished(result), Step::Done(result)),
            ListenPhase::Finished(result) => (ListenPhase::Finished(result), Step::Done(result)),
        }
    }

    /// Takes the answer to the call handed out last (any answer on the
    /// first turn) and hands out the next call or the result.
    pub fn step(&mut self, reply: StackReply) -> (next: Step<Result<usize, Error>>)
        ensures
            (final(self).phase, next) == old(self).spec_step(reply),
            step_obeys(old(self).holds_lock(), next, final(self).holds_lock()),
    {
        match self.phase {
            ListenPhase::Start => {
                self.phase = ListenPhase::Locking;
                Step::Call(StackCall::Lock)
            },
            ListenPhase::Locking => {
                self.phase = ListenPhase::Creating;
                Step::Call(StackCall::TcpNew)
            },
            ListenPhase::Creating => {
                let pcb = reply.handle();
                if pcb == NULL {
                    self.phase = ListenPhase::Unlocking(Err(Error::LwIP(ERR_MEM)));
                    Step::Call(StackCall::Unlock)
                } else {
                    self.phase = ListenPhase::Binding(pcb);
                    Step::Call(StackCall::TcpBind { pcb, addr: ip_addr_any_type(), port: 0 })
                }
            },
            ListenPhase::Binding(pcb) => {
                let status = reply.status();
                if status != ERR_OK {
                    self.phase = ListenPhase::Releasing(status);
                    Step::Call(StackCall::TcpClose { pcb })
                } else {
                    self.phase = ListenPhase::Listening(pcb);
                    Step::Call(StackCall::TcpListen { pcb, backlog: TCP_DEFAULT_LISTEN_BACKLOG })
                }
            },
            ListenPhase::Listening(pcb) => {
                let tpcb = reply.handle();
                if tpcb == NULL {
                    self.phase = ListenPhase::Releasing(reply.status());
                    Step::Call(StackCall::TcpClose { pcb })
                } else {
                    self.phase = ListenPhase::Arming(tpcb);
                    Step::Call(StackCall::TcpArg { pcb: tpcb, arg: LISTENER_KEY })
                }
            },
            ListenPhase::Arming(tpcb) => {
                self.phase = ListenPhase::Registering(tpcb);
                Step::Call(StackCall::TcpAccept { pcb: tpcb, on: true })
            },
            ListenPhase::Registering(tpcb) => {
                self.phase = ListenPhase::Unlocking(Ok(tpcb));
                Step::Call(StackCall::Unlock)
            },
            ListenPhase::Releasing(code) => {
                self.phase = ListenPhase::Unlocking(Err(Error::LwIP(code)));
                Step::Call(StackCall::Unlock)
            },
            ListenPhase::Unlocking(result) => {
                self.phase = ListenPhase::Finished(result);
                Step::Done(result)
            },
            ListenPhase::Finished(result) => Step::Done(result),
        }
    }
}

/// The calls an opening makes from its state on, given the answers in
/// order, and its result where the answers reach that far.
pub open spec fn listen_run(setup: ListenerSetup, replies: Seq<StackReply>) -> (
    Seq<StackCall>,
    Option<Result<usize, Error>>,
)
    decreases replies.len(),
{
    if replies.len() == 0 {
        (Seq::empty(), None)
    } else {
        let (phase, next) = setup.spec_step(replies.first());
        match next {
            Step::Done(result) => (Seq::empty(), Some(result)),
            Step::Call(call) => {
                let rest = listen_run(ListenerSetup { phase }, replies.drop_first());
                (seq![call] + rest.0, rest.1)
            },
        }
    }
}

/// All calls of an opening, by the answers to the creation, the bind and
/// the listen.
pub open spec fn listen_calls(created: StackReply, bound: StackReply, listened: StackReply) -> Seq<
    StackCall,
> {
    let pcb = created.handle();
    let create = seq![StackCall::Lock, StackCall::TcpNew];
    let bind = StackCall::TcpBind { pcb, addr: ip_addr_any_type(), port: 0 };
    let listen = StackCall::TcpListen { pcb, backlog: TCP_DEFAULT_LISTEN_BACKLOG };
    if pcb == NULL {
        create + seq![StackCall::Unlock]
    } else if bound.status() != ERR_OK {
        create + seq![bind, StackCall::TcpClose { pcb }, StackCall::Unlock]
    } else if listened.handle() == NULL {
        create + seq![bind, listen, StackCall::TcpClose { pcb }, StackCall::Unlock]
    } else {
        create + seq![
            bind,
            listen,
            StackCall::TcpArg { pcb: listened.handle(), arg: LISTENER_KEY },
            StackCall::TcpAccept { pcb: listened.handle(), on: true },
            StackCall::Unlock,
        ]
    }
}

/// The result of an opening, by the same three answers.
pub open spec fn listen_result(created: StackReply, bound: StackReply, listened: StackReply)
    -> Result<usize, Error> {
    if created.handle() == NULL {
        Err(Error::LwIP(ERR_MEM))
    } else if bound.status() != ERR_OK {
        Err(Error::LwIP(bound.status()))
    } else if listened.handle() == NULL {
        Err(Error::LwIP(listened.status()))
    } else {
        Ok(listened.handle())
    }
}

/// An opening from its start, whatever the stack answers: it succeeds
/// exactly if a PCB is created, bound and put in listen state, it reports
/// the code of the first step that failed, and a PCB it created and could
/// not use is closed before the lock is released. The answers that matter
/// are the third (to the creation), the fourth (to the bind) and the fifth
/// (to the listen).
pub proof fn lemma_listen_run(replies: Seq<StackReply>)
    requires
        replies.len() >= 9,
    ensures
        listen_run(ListenerSetup { phase: ListenPhase::Start }, replies) == (
            listen_calls(replies[2], replies[3], replies[4]),
            Some(listen_result(replies[2], replies[3], replies[4])),
        ),
{
    reveal_with_fuel(listen_run, 10);
    let r1 = replies.drop_first();
    let r2 = r1.drop_first();
    let r3 = r2.drop_first();
    let r4 = r3.drop_first();
    let r5 = r4.drop_first();
    let r6 = r5.drop_first();
    let r7 = r6.drop_first();
    let r8 = r7.drop_first();
    assert(r2.first() == replies[2]);
    assert(r3.first() == replies[3]);
    assert(r4.first() == replies[4]);
    assert(listen_run(ListenerSetup { phase: ListenPhase::Start }, replies).0 =~= listen_calls(
        replies[2],
        replies[3],
        replies[4],
    ));
}

/// Every opening keeps the Stack Lock discipline: whatever the stack
/// answers, the calls it makes are permitted where they stand, those that
/// enter the stack are made under the lock, and the lock is free at the end.
pub proof fn lemma_listen_disciplined(created: StackReply, bound: StackReply, listened: StackReply)
    ensures
        disciplined(false, listen_calls(created, bound, listened)),
        !held_at_end(false, listen_calls(created, bound, listened)),
{
    reveal_with_fuel(disciplined, 8);
    reveal_with_fuel(held_at_end, 8);
}

} // verus!
