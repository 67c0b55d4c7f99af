//! The adapter: the interface bridge as its owner holds it, and the
//! procedure that brings up the bridge, the TCP listener and the UDP socket
//! together.

use crate::channel::MAX_BUFFER;
use crate::lwip::{StackCall, StackReply, Step};
use crate::mutex::{held_after, step_obeys};
use crate::script::Script;
use crate::stack_impl::{
    egress_after, setup_calls, teardown_calls, FlushPhase, IngressFlush, NetStackImpl,
    NetStackView,
};
use crate::tcp_listener::TcpListener;
use crate::tcp_listener_impl::{
    listener_teardown, unlisten_calls, ListenPhase, ListenerSetup, ListenerView,
    FIRST_STREAM_KEY,
};
use crate::udp::{UdpPhase, UdpSetup, UdpSocket, UdpView};
use crate::{Error, IoError};
use std::task::Poll;
use vstd::prelude::*;

verus! {

/// How many packets the egress queue holds where nothing else is asked.
pub const DEFAULT_STACK_BUFFER_SIZE: usize = 512;

/// How many datagrams the UDP queue holds where nothing else is asked.
pub const DEFAULT_UDP_BUFFER_SIZE: usize = 64;

/// The interface bridge of a running adapter.
pub struct NetStack {
    inner: NetStackImpl,
}

impl NetStack {
    /// The bridge is well-formed.
    pub closed spec fn wf(&self) -> bool {
        self.inner.wf()
    }

    pub closed spec fn view(&self) -> NetStackView {
        self.inner@
    }

    /// The procedure that brings up an adapter with the default queue
    /// sizes.
    pub fn new() -> (setup: AdapterSetup)
        ensures
            setup.wf(),
            setup@ == AdapterView::initial(DEFAULT_STACK_BUFFER_SIZE, DEFAULT_UDP_BUFFER_SIZE),
    {
        NetStack::with_buffer_size(DEFAULT_STACK_BUFFER_SIZE, DEFAULT_UDP_BUFFER_SIZE)
    }

    /// The procedure that brings up an adapter whose egress queue holds
    /// `stack_buffer_size` packets and whose UDP queue holds
    /// `udp_buffer_size` datagrams.
    pub fn with_buffer_size(stack_buffer_size: usize, udp_buffer_size: usize) -> (setup:
        AdapterSetup)
        requires
            0 < stack_buffer_size <= MAX_BUFFER,
            0 < udp_buffer_size <= MAX_BUFFER,
        ensures
            setup.wf(),
            setup@ == AdapterView::initial(stack_buffer_size, udp_buffer_size),
    {
        let script = NetStackImpl::setup();
        let setup = AdapterSetup {
            stage: AdapterStage::Stack,
            script,
            listen: ListenerSetup { phase: ListenPhase::Start },
            udp: UdpSetup { phase: UdpPhase::Start },
            stack_buffer_size,
            udp_buffer_size,
            tpcb: 0,
            upcb: 0,
            failure: None,
        };
        proof {
            script.lemma_wf();
            assert(script.calls().take(0) =~= Seq::<StackCall>::empty());
        }
        setup
    }

    /// Takes a packet that the stack emitted. It joins the egress queue
    /// unless the queue is full, in which case it is dropped. The result
    /// tells whether the egress reader is to be woken.
    pub fn output(&mut self, pkt: Vec<u8>) -> (wake: bool)
        requires
            old(self).wf(),
        ensures
            final(self).wf(),
            final(self)@ == (NetStackView {
                egress: egress_after(old(self)@.egress, old(self)@.limit, pkt@),
                ..old(self)@
            }),
            wake == old(self)@.reader_parked,
    {
        self.inner.output(pkt)
    }

    /// Gives the oldest egress packet, or parks the reader where none waits.
    pub fn poll_next(&mut self) -> (next: Poll<Option<Vec<u8>>>)
        requires
            old(self).wf(),
        ensures
            final(self).wf(),
            old(self)@.egress.len() > 0 ==> {
                &&& next matches Poll::Ready(Some(pkt))
                &&& pkt@ == old(self)@.egress.first()
                &&& final(self)@ == (NetStackView {
                    egress: old(self)@.egress.drop_first(),
                    ..old(self)@
                })
            },
            old(self)@.egress.len() == 0 ==> {
                &&& next is Pending
                &&& final(self)@ == (NetStackView { reader_parked: true, ..old(self)@ })
            },
    {
        self.inner.poll_next()
    }

    /// Stages one ingress packet for the next flush.
    pub fn start_send(&mut self, item: Vec<u8>)
        ensures
            final(self).wf() == old(self).wf(),
            final(self)@ == (NetStackView { staged: Some(item@), ..old(self)@ }),
    {
        self.inner.start_send(item)
    }

    /// Begins the flush of the staged packet.
    pub fn poll_flush(&mut self) -> (flush: IngressFlush)
        ensures
            final(self).wf() == old(self).wf(),
            final(self)@ == (NetStackView { staged: None, ..old(self)@ }),
            flush.phase == FlushPhase::Start,
            flush.staged() == old(self)@.staged,
    {
        self.inner.poll_flush()
    }

    /// Whether the bridge can take a packet: it can once what is staged has
    /// been flushed, so this begins the same procedure as `poll_flush`.
    pub fn poll_ready(&mut self) -> (flush: IngressFlush)
        ensures
            final(self).wf() == old(self).wf(),
            final(self)@ == (NetStackView { staged: None, ..old(self)@ }),
            flush.phase == FlushPhase::Start,
            flush.staged() == old(self)@.staged,
    {
        self.inner.poll_ready()
    }

    /// Closing the ingress side needs no work.
    pub fn poll_close(&mut self) -> (closed: Poll<Result<(), IoError>>)
        ensures
            final(self)@ == old(self)@,
            final(self).wf() == old(self).wf(),
            closed == Poll::Ready(Ok::<(), IoError>(())),
    {
        self.inner.poll_close()
    }

    /// What is to be done when the adapter is dropped: the anchor is
    /// cleared under the Stack Lock.
    pub fn teardown(&self) -> (script: Script)
        ensures
            script.wf(),
            script.position() == 0,
            script.calls() == teardown_calls(),
    {
        NetStackImpl::teardown()
    }
}

/// Which part of the bring-up is in course.
#[derive(Clone, Copy, Debug, PartialEq, Eq, Structural)]
pub enum AdapterStage {
    /// The interface is being set up.
    Stack,
    /// The listening PCB is being opened.
    Listener,
    /// The UDP PCB is being opened.
    Udp,
    /// The listening PCB is being taken down after the UDP PCB failed.
    UndoListener,
    /// The anchor is being cleared after a failure.
    UndoStack,
    /// The bring-up has ended.
    Finished,
}

/// What a bring-up holds.
pub struct AdapterView {
    pub stage: AdapterStage,
    /// The fixed sequence of calls in course, how many of them have been
    /// handed out, and whether those leave the lock held.
    pub calls: Seq<StackCall>,
    pub position: nat,
    pub held: bool,
    /// Where the opening of the listening PCB stands.
    pub listen: ListenPhase,
    /// Where the opening of the UDP PCB stands.
    pub udp: UdpPhase,
    pub stack_buffer_size: usize,
    pub udp_buffer_size: usize,
    /// The listening PCB and the UDP PCB, once open.
    pub tpcb: usize,
    pub upcb: usize,
    /// The failure that stopped the bring-up.
    pub failure: Option<Error>,
}

impl AdapterView {
    /// A bring-up of which nothing has been handed out.
    pub open spec fn initial(stack_buffer_size: usize, udp_buffer_size: usize) -> AdapterView {
        AdapterView {
            stage: AdapterStage::Stack,
            calls: setup_calls(),
            position: 0,
            held: false,
            listen: ListenPhase::Start,
            udp: UdpPhase::Start,
            stack_buffer_size,
            udp_buffer_size,
            tpcb: 0,
            upcb: 0,
            failure: None,
        }
    }

    /// The result of a bring-up that has ended.
    pub open spec fn outcome(&self) -> Result<(), Error> {
        match self.failure {
            Some(e) => Err(e),
            None => Ok(()),
        }
    }

    /// Whether the bring-up holds the Stack Lock.
    pub open spec fn holds_lock(&self) -> bool {
        match self.stage {
            AdapterStage::Stack => self.held,
            AdapterStage::UndoListener => self.held,
            AdapterStage::UndoStack => self.held,
            AdapterStage::Listener => (ListenerSetup { phase: self.listen }).holds_lock(),
            AdapterStage::Udp => (UdpSetup { phase: self.udp }).holds_lock(),
            AdapterStage::Finished => false,
        }
    }

    /// The bring-up once the next call of the sequence in course has been
    /// handed out.
    pub open spec fn advanced(&self) -> AdapterView {
        AdapterView {
            position: self.position + 1,
            held: held_after(self.held, self.calls[self.position as int]),
            ..*self
        }
    }

    /// The bring-up at the start of a fresh sequence whose first call, the
    /// lock, is handed out.
    pub open spec fn undoing(&self, stage: AdapterStage, calls: Seq<StackCall>) -> AdapterView {
        AdapterView { stage, calls, position: 1, held: true, ..*self }
    }

    /// The bring-up that follows on an answer and what is handed to the
    /// driver.
    ///
    /// The interface is set up first, then the listening PCB is opened,
    /// then the UDP PCB. Where the listening PCB fails, the anchor is
    /// cleared again; where the UDP PCB fails, the listening PCB is taken
    /// down and the anchor cleared. The result is the first failure, or
    /// success.
    pub open spec fn spec_step(&self, reply: StackReply) -> (AdapterView, Step<Result<(), Error>>) {
        match self.stage {
            AdapterStage::Stack => if self.position < self.calls.len() {
                (self.advanced(), Step::Call(self.calls[self.position as int]))
            } else {
                (
                    AdapterView {
                        stage: AdapterStage::Listener,
                        listen: ListenPhase::Locking,
                        ..*self
                    },
                    Step::Call(StackCall::Lock),
                )
            },
            AdapterStage::Listener => {
                let (phase, next) = (ListenerSetup { phase: self.listen }).spec_step(reply);
                let after = AdapterView { listen: phase, ..*self };
                match next {
                    Step::Call(call) => (after, Step::Call(call)),
                    Step::Done(Ok(tpcb)) => (
                        AdapterView {
                            stage: AdapterStage::Udp,
                            tpcb,
                            udp: UdpPhase::Locking,
                            ..after
                        },
                        Step::Call(StackCall::Lock),
                    ),
                    Step::Done(Err(e)) => (
                        (AdapterView { failure: Some(e), ..after }).undoing(
                            AdapterStage::UndoStack,
                            teardown_calls(),
                        ),
                        Step::Call(StackCall::Lock),
                    ),
                }
            },
            AdapterStage::Udp => {
                let (phase, next) = (UdpSetup { phase: self.udp }).spec_step(reply);
                let after = AdapterView { udp: phase, ..*self };
                match next {
                    Step::Call(call) => (after, Step::Call(call)),
                    Step::Done(Ok(upcb)) => (
                        AdapterView { stage: AdapterStage::Finished, upcb, ..after },
                        Step::Done(Ok(())),
                    ),
                    Step::Done(Err(e)) => (
                        (AdapterView { failure: Some(e), ..after }).undoing(
                            AdapterStage::UndoListener,
                            unlisten_calls(self.tpcb),
                        ),
                        Step::Call(StackCall::Lock),
                    ),
                }
            },
            AdapterStage::UndoListener => if self.position < self.calls.len() {
                (self.advanced(), Step::Call(self.calls[self.position as int]))
            } else {
                (self.undoing(AdapterStage::UndoStack, teardown_calls()), Step::Call(StackCall::Lock))
            },
            AdapterStage::UndoStack => if self.position < self.calls.len() {
                (self.advanced(), Step::Call(self.calls[self.position as int]))
            } else {
                (
                    AdapterView { stage: AdapterStage::Finished, ..*self },
                    Step::Done(self.outcome()),
                )
            },
            AdapterStage::Finished => (*self, Step::Done(self.outcome())),
        }
    }
}

/// The bring-up of an adapter.
pub struct AdapterSetup {
    stage: AdapterStage,
    script: Script,
    listen: ListenerSetup,
    udp: UdpSetup,
    stack_buffer_size: usize,
    udp_buffer_size: usize,
    tpcb: usize,
    upcb: usize,
    failure: Option<Error>,
}

/// The three parts of a running adapter.
pub struct Adapter {
    pub stack: NetStack,
    pub listener: TcpListener,
    pub udp: UdpSocket,
}

impl AdapterSetup {
    /// The sequence in course is well-formed and the queue sizes can be
    /// had.
    pub closed spec fn wf(&self) -> bool {
        &&& self.script.wf()
        &&& 0 < self.stack_buffer_size <= MAX_BUFFER
        &&& 0 < self.udp_buffer_size <= MAX_BUFFER
    }

    pub closed spec fn view(&self) -> AdapterView {
        AdapterView {
            stage: self.stage,
            calls: self.script.calls(),
            position: self.script.position(),
            held: self.script.holds_lock(),
            listen: self.listen.phase,
            udp: self.udp.phase,
            stack_buffer_size: self.stack_buffer_size,
            udp_buffer_size: self.udp_buffer_size,
            tpcb: self.tpcb,
            upcb: self.upcb,
            failure: self.failure,
        }
    }

    /// Takes the answer to the call handed out last (any answer on the
    /// first turn) and hands out the next call or the result.
    pub fn step(&mut self, reply: StackReply) -> (next: Step<Result<(), Error>>)
        requires
            old(self).wf(),
        ensures
            final(self).wf(),
            (final(self)@, next) == old(self)@.spec_step(reply),
            step_obeys(old(self)@.holds_lock(), next, final(self)@.holds_lock()),
    {
        proof {
            self.script.lemma_wf();
        }
        match self.stage {
            AdapterStage::Stack => {
                match self.script.step(reply) {
                    Step::Call(call) => Step::Call(call),
                    Step::Done(_) => {
                        self.stage = AdapterStage::Listener;
                        self.listen = ListenerSetup { phase: ListenPhase::Locking };
                        Step::Call(StackCall::Lock)
                    },
                }
            },
            AdapterStage::Listener => {
                match self.listen.step(reply) {
                    Step::Call(call) => Step::Call(call),
                    Step::Done(Ok(tpcb)) => {
                        self.tpcb = tpcb;
                        self.stage = AdapterStage::Udp;
                        self.udp = UdpSetup { phase: UdpPhase::Locking };
                        Step::Call(StackCall::Lock)
                    },
                    Step::Done(Err(e)) => {
                        self.failure = Some(e);
                        self.begin_undo_stack()
                    },
                }
            },
            AdapterStage::Udp => {
                match self.udp.step(reply) {
                    Step::Call(call) => Step::Call(call),
                    Step::Done(Ok(upcb)) => {
                        self.upcb = upcb;
                        self.stage = AdapterStage::Finished;
                        Step::Done(Ok(()))
                    },
                    Step::Done(Err(e)) => {
                        self.failure = Some(e);
                        self.script = listener_teardown(self.tpcb);
                        self.stage = AdapterStage::UndoListener;
                        proof {
                            self.script.lemma_wf();
                        }
                        let _ = self.script.step(StackReply::Unit);
                        proof {
                            self.script.lemma_wf();
                            assert(unlisten_calls(self.tpcb).take(1) =~= seq![StackCall::Lock]);
                            assert(unlisten_calls(self.tpcb).take(1).drop_last()
                                =~= Seq::<StackCall>::empty());
                        }
                        Step::Call(StackCall::Lock)
                    },
                }
            },
            AdapterStage::UndoListener => {
                match self.script.step(reply) {
                    Step::Call(call) => Step::Call(call),
                    Step::Done(_) => self.begin_undo_stack(),
                }
            },
            AdapterStage::UndoStack => {
                match self.script.step(reply) {
                    Step::Call(call) => Step::Call(call),
                    Step::Done(_) => {
                        self.stage = AdapterStage::Finished;
                        Step::Done(self.outcome())
                    },
                }
            },
            AdapterStage::Finished => Step::Done(self.outcome()),
        }
    }

    /// Starts the clearing of the anchor.
    fn begin_undo_stack(&mut self) -> (next: Step<Result<(), Error>>)
        requires
            old(self).wf(),
        ensures
            next == Step::<Result<(), Error>>::Call(StackCall::Lock),
            final(self).script.wf(),
            final(self)@ == old(self)@.undoing(AdapterStage::UndoStack, teardown_calls()),
            final(self).stack_buffer_size == old(self).stack_buffer_size,
            final(self).udp_buffer_size == old(self).udp_buffer_size,
    {
        self.script = NetStackImpl::teardown();
        self.stage = AdapterStage::UndoStack;
        proof {
            self.script.lemma_wf();
        }
        let _ = self.script.step(StackReply::Unit);
        proof {
            self.script.lemma_wf();
            assert(teardown_calls().take(1) =~= seq![StackCall::Lock]);
            assert(teardown_calls().take(1).drop_last() =~= Seq::<StackCall>::empty());
        }
        Step::Call(StackCall::Lock)
    }

    /// The result of a bring-up that has ended.
    fn outcome(&self) -> (r: Result<(), Error>)
        ensures
            r == self@.outcome(),
    {
        match self.failure {
            Some(e) => Err(e),
            None => Ok(()),
        }
    }

    /// The parts of the adapter, once the bring-up has ended in success:
    /// the bridge with an empty egress queue of the size asked for, the
    /// listener around the listening PCB and the socket around the UDP PCB.
    /// A bring-up that has not ended, or has failed, gives no parts.
    pub fn finish(self) -> (adapter: Option<Adapter>)
        requires
            self.wf(),
        ensures
            adapter is Some == (self@.stage is Finished && self@.failure is None),
            adapter matches Some(a) ==> {
                &&& a.stack.wf()
                &&& a.stack@ == (NetStackView {
                    egress: Seq::empty(),
                    limit: self@.stack_buffer_size as nat,
                    reader_parked: false,
                    staged: None,
                })
                &&& a.listener.wf()
                &&& a.listener@ == (ListenerView {
                    tpcb: self@.tpcb,
                    pending: Seq::empty(),
                    acceptor_parked: false,
                    next_key: FIRST_STREAM_KEY,
                })
                &&& a.udp.wf()
                &&& a.udp@ == (UdpView {
                    pcb: self@.upcb,
                    pending: Seq::empty(),
                    limit: self@.udp_buffer_size as nat,
                    reader_parked: false,
                })
            },
    {
        match self.stage {
            AdapterStage::Finished => {
                if self.failure.is_none() {
                    Some(
                        Adapter {
                            stack: NetStack { inner: NetStackImpl::new(self.stack_buffer_size) },
                            listener: TcpListener::open(self.tpcb),
                            udp: UdpSocket::open(self.upcb, self.udp_buffer_size),
                        },
                    )
                } else {
                    None
                }
            },
            _ => None,
        }
    }
}

} // verus!
