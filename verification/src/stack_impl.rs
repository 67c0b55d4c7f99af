//! The interface bridge: the bounded egress queue that the stack's output
//! hook fills and the egress reader drains, the single staged ingress
//! packet, and the procedures that set the interface up, feed a packet to
//! the stack, drive the stack's timers and take the bridge down.

use crate::channel::{
    packet_channel, packet_try_recv, packet_try_send, packets_joined, packets_limit,
    packets_queued, MAX_BUFFER,
};
use crate::lwip::{StackCall, StackReply, Step, ERR_ARG, ERR_OK, MAX_CHUNK, NETIF_MTU, NULL};
use crate::mutex::{disciplined, held_at_end, step_obeys};
use crate::script::Script;
use crate::IoError;
use std::task::Poll;
use tokio::sync::mpsc::{Receiver, Sender};
use vstd::prelude::*;

verus! {

/// The key under which the adapter is anchored for the output hooks.
pub const ADAPTER_KEY: usize = 1;

/// How long the timer pump sleeps between two ticks, in milliseconds.
pub const TIMER_INTERVAL_MS: u64 = 250;

/// What a bridge holds.
pub struct NetStackView {
    /// The packets the stack has emitted and nobody has read, oldest first.
    pub egress: Seq<Seq<u8>>,
    /// How many packets the egress queue can hold.
    pub limit: nat,
    /// Whether the egress reader found the queue empty and waits.
    pub reader_parked: bool,
    /// The ingress packet staged for the next flush.
    pub staged: Option<Seq<u8>>,
}

/// The interface bridge.
pub struct NetStackImpl {
    tx: Sender<Vec<u8>>,
    rx: Receiver<Vec<u8>>,
    reader_parked: bool,
    sink_buf: Option<Vec<u8>>,
}

impl NetStackImpl {
    /// The two ends belong together and the queue is within its limit.
    pub closed spec fn wf(&self) -> bool {
        &&& packets_joined(self.tx, self.rx)
        &&& 0 < packets_limit(self.rx)
        &&& packets_queued(self.rx).len() <= packets_limit(self.rx)
    }

    pub closed spec fn view(&self) -> NetStackView {
        NetStackView {
            egress: packets_queued(self.rx),
            limit: packets_limit(self.rx),
            reader_parked: self.reader_parked,
            staged: match self.sink_buf {
                Some(item) => Some(item@),
                None => None,
            },
        }
    }

    /// The egress queue never holds more than its limit.
    pub proof fn lemma_egress_bounded(&self)
        requires
            self.wf(),
        ensures
            self@.egress.len() <= self@.limit,
            0 < self@.limit,
    {
    }

    /// A bridge with an empty egress queue of `buffer_size` slots, nothing
    /// staged and no reader waiting. The stack is not touched: `StackSetup`
    /// says what is to be done there.
    pub fn new(buffer_size: usize) -> (stack: Self)
        requires
            0 < buffer_size <= MAX_BUFFER,
        ensures
            stack.wf(),
            stack@ == (NetStackView {
                egress: Seq::empty(),
                limit: buffer_size as nat,
                reader_parked: false,
                staged: None,
            }),
    {
        let (tx, rx) = packet_channel(buffer_size);
        NetStackImpl { tx, rx, reader_parked: false, sink_buf: None }
    }

    /// What is to be done in the stack before a bridge is used: under the
    /// Stack Lock the stack is initialised, the output hooks and the MTU are
    /// set on the interface and the adapter is anchored; then the timer pump
    /// is started.
    pub fn setup() -> (script: Script)
        ensures
            script.wf(),
            script.position() == 0,
            script.calls() == setup_calls(),
    {
        let script = Script::new().followed_by(StackCall::Lock).followed_by(StackCall::Init).followed_by(
            StackCall::NetifSetOutput,
        ).followed_by(StackCall::NetifSetMtu { mtu: NETIF_MTU }).followed_by(
            StackCall::AnchorSet { owner: ADAPTER_KEY },
        ).followed_by(StackCall::Unlock).followed_by(StackCall::SpawnTimerPump);
        assert(script.calls() =~= setup_calls());
        script
    }

    /// What is to be done when a bridge is dropped: the anchor is cleared
    /// under the Stack Lock, so that the output hooks find no adapter.
    pub fn teardown() -> (script: Script)
        ensures
            script.wf(),
            script.position() == 0,
            script.calls() == teardown_calls(),
    {
        let script = Script::new().followed_by(StackCall::Lock).followed_by(StackCall::AnchorClear).followed_by(
            StackCall::Unlock,
        );
        assert(script.calls() =~= teardown_calls());
        script
    }

    /// Takes a packet that the stack emitted. It joins the egress queue
    /// unless the queue is full, in which case it is dropped. The result
    /// tells whether the egress reader is to be woken.
    pub fn output(&mut self, pkt: Vec<u8>) -> (wake: bool)
        requires
            old(self).wf(),
        ensures
            final(self).wf(),
            final(self)@ == (NetStackView {
                egress: egress_after(old(self)@.egress, old(self)@.limit, pkt@),
                ..old(self)@
            }),
            wake == old(self)@.reader_parked,
    {
        let _ = packet_try_send(&self.tx, &mut self.rx, pkt);
        self.reader_parked
    }

    /// Gives the oldest egress packet, or parks the reader where none waits.
    /// The stream of egress packets does not end while the bridge lives.
    pub fn poll_next(&mut self) -> (next: Poll<Option<Vec<u8>>>)
        requires
            old(self).wf(),
        ensures
            final(self).wf(),
            old(self)@.egress.len() > 0 ==> {
                &&& next matches Poll::Ready(Some(pkt))
                &&& pkt@ == old(self)@.egress.first()
                &&& final(self)@ == (NetStackView {
                    egress: old(self)@.egress.drop_first(),
                    ..old(self)@
                })
            },
            old(self)@.egress.len() == 0 ==> {
                &&& next is Pending
                &&& final(self)@ == (NetStackView { reader_parked: true, ..old(self)@ })
            },
    {
        match packet_try_recv(&self.tx, &mut self.rx) {
            Some(pkt) => Poll::Ready(Some(pkt)),
            None => {
                self.reader_parked = true;
                Poll::Pending
            },
        }
    }

    /// Stages one ingress packet for the next flush, in place of whatever
    /// was staged.
    pub fn start_send(&mut self, item: Vec<u8>)
        ensures
            final(self).wf() == old(self).wf(),
            final(self)@ == (NetStackView { staged: Some(item@), ..old(self)@ }),
    {
        self.sink_buf = Some(item);
    }

    /// Begins the flush of the staged packet: the packet leaves the bridge
    /// and the procedure that feeds it to the stack is returned.
    pub fn poll_flush(&mut self) -> (flush: IngressFlush)
        ensures
            final(self).wf() == old(self).wf(),
            final(self)@ == (NetStackView { staged: None, ..old(self)@ }),
            flush.phase == FlushPhase::Start,
            flush.staged() == old(self)@.staged,
    {
        let packet = self.sink_buf.take();
        IngressFlush { phase: FlushPhase::Start, packet, pbuf: NULL }
    }

    /// Whether the bridge can take a packet: it can once what is staged has
    /// been flushed, so this begins the same procedure as `poll_flush`.
    pub fn poll_ready(&mut self) -> (flush: IngressFlush)
        ensures
            final(self).wf() == old(self).wf(),
            final(self)@ == (NetStackView { staged: None, ..old(self)@ }),
            flush.phase == FlushPhase::Start,
            flush.staged() == old(self)@.staged,
    {
        self.poll_flush()
    }

    /// Closing the ingress side needs no work.
    pub fn poll_close(&mut self) -> (closed: Poll<Result<(), IoError>>)
        ensures
            *final(self) == *old(self),
            closed == Poll::Ready(Ok::<(), IoError>(())),
    {
        Poll::Ready(Ok(()))
    }
}

/// The calls that set a bridge up.
pub open spec fn setup_calls() -> Seq<StackCall> {
    seq![
        StackCall::Lock,
        StackCall::Init,
        StackCall::NetifSetOutput,
        StackCall::NetifSetMtu { mtu: NETIF_MTU },
        StackCall::AnchorSet { owner: ADAPTER_KEY },
        StackCall::Unlock,
        StackCall::SpawnTimerPump,
    ]
}

/// The calls that take a bridge down.
pub open spec fn teardown_calls() -> Seq<StackCall> {
    seq![StackCall::Lock, StackCall::AnchorClear, StackCall::Unlock]
}

/// The egress queue after the stack has emitted one more packet.
pub open spec fn egress_after(queue: Seq<Seq<u8>>, limit: nat, pkt: Seq<u8>) -> Seq<Seq<u8>> {
    if queue.len() < limit {
        queue.push(pkt)
    } else {
        queue
    }
}

/// The egress queue after the stack has emitted a run of packets that
/// nobody read in between.
pub open spec fn egress_after_all(queue: Seq<Seq<u8>>, limit: nat, pkts: Seq<Seq<u8>>) -> Seq<
    Seq<u8>,
>
    decreases pkts.len(),
{
    if pkts.len() == 0 {
        queue
    } else {
        egress_after(egress_after_all(queue, limit, pkts.drop_last()), limit, pkts.last())
    }
}

/// However many packets the stack emits while the reader is suspended, the
/// egress queue stays within its limit: it keeps what it held, takes the
/// first packets that fit, in order, and drops the rest.
pub proof fn lemma_egress_bound(queue: Seq<Seq<u8>>, limit: nat, pkts: Seq<Seq<u8>>)
    requires
        queue.len() <= limit,
    ensures
        egress_after_all(queue, limit, pkts).len() <= limit,
        egress_after_all(queue, limit, pkts).len() == if queue.len() + pkts.len() <= limit {
            queue.len() + pkts.len()
        } else {
            limit
        },
        egress_after_all(queue, limit, pkts) == queue + pkts.take(
            egress_after_all(queue, limit, pkts).len() - queue.len(),
        ),
    decreases pkts.len(),
{
    if pkts.len() == 0 {
        assert(queue + pkts.take(0) =~= queue);
    } else {
        let head = pkts.drop_last();
        lemma_egress_bound(queue, limit, head);
        let before = egress_after_all(queue, limit, head);
        let after = egress_after_all(queue, limit, pkts);
        if before.len() < limit {
            assert(before.len() == queue.len() + head.len());
            assert(head.take(head.len() as int) =~= head);
            assert(pkts.take(pkts.len() as int) =~= pkts);
            assert(after =~= queue + pkts.take(after.len() - queue.len()));
        } else {
            assert(pkts.take(limit - queue.len()) =~= head.take(limit - queue.len()));
        }
    }
}

/// Where the flush of one ingress packet stands.
#[derive(Clone, Copy, Debug, PartialEq, Eq)]
pub enum FlushPhase {
    /// Nothing has been asked of the driver yet.
    Start,
    /// The lock was asked for.
    Locking,
    /// A pbuf was asked for.
    Allocating,
    /// The copy into the pbuf was asked for.
    Copying,
    /// The pbuf was handed to the interface's input.
    Feeding,
    /// The release of the rejected pbuf was asked for.
    Freeing(Poll<Result<(), IoError>>),
    /// The release of the lock was asked for.
    Unlocking(Poll<Result<(), IoError>>),
    /// The flush has ended with this result.
    Finished(Poll<Result<(), IoError>>),
}

/// The flush of one ingress packet: under the Stack Lock, a pbuf of the
/// packet's length is allocated, filled and handed to the interface's input.
pub struct IngressFlush {
    /// Where the flush stands.
    pub phase: FlushPhase,
    /// The packet being flushed, if one was staged.
    pub packet: Option<Vec<u8>>,
    /// The pbuf that holds the packet, once allocated.
    pub pbuf: usize,
}

/// The result that stands for success.
pub open spec fn flushed() -> Poll<Result<(), IoError>> {
    Poll::Ready(Ok(()))
}

impl IngressFlush {
    /// The bytes of the packet being flushed.
    pub open spec fn staged(&self) -> Option<Seq<u8>> {
        match self.packet {
            Some(item) => Some(item@),
            None => None,
        }
    }

    /// The length of the packet being flushed, 0 where there is none.
    pub open spec fn spec_len(&self) -> usize {
        match self.packet {
            Some(item) => item.len(),
            None => 0,
        }
    }

    /// The length of the packet being flushed, 0 where there is none.
    #[verifier::when_used_as_spec(spec_len)]
    pub fn len(&self) -> (len: usize)
        ensures
            len == self.spec_len(),
    {
        match &self.packet {
            Some(item) => item.len(),
            None => 0,
        }
    }

    /// Whether the flush holds the Stack Lock.
    pub open spec fn holds_lock(&self) -> bool {
        match self.phase {
            FlushPhase::Start => false,
            FlushPhase::Locking => true,
            FlushPhase::Allocating => true,
            FlushPhase::Copying => true,
            FlushPhase::Feeding => true,
            FlushPhase::Freeing(_) => true,
            FlushPhase::Unlocking(_) => false,
            FlushPhase::Finished(_) => false,
        }
    }

    /// The phase that follows on an answer, the pbuf held then, and what is
    /// handed to the driver.
    ///
    /// Nothing staged and an empty packet are no-ops. A packet too long for
    /// one pbuf is refused as the stack refuses an illegal argument. Where
    /// no pbuf can be had the flush stays pending. A packet the stack
    /// accepts belongs to the stack; one it rejects, or one for which the
    /// interface has no input, is freed before the error is reported.
    pub open spec fn spec_step(&self, reply: StackReply) -> (FlushPhase, usize, Step<
        Poll<Result<(), IoError>>,
    >) {
        match self.phase {
            FlushPhase::Start => if self.len() == 0 {
                (FlushPhase::Finished(flushed()), self.pbuf, Step::Done(flushed()))
            } else if self.len() > MAX_CHUNK {
                let refused = Poll::Ready(Err(IoError::Input(ERR_ARG)));
                (FlushPhase::Finished(refused), self.pbuf, Step::Done(refused))
            } else {
                (FlushPhase::Locking, self.pbuf, Step::Call(StackCall::Lock))
            },
            FlushPhase::Locking => (
                FlushPhase::Allocating,
                self.pbuf,
                Step::Call(StackCall::PbufAlloc { len: self.len() as u16 }),
            ),
            FlushPhase::Allocating => if reply.handle() == NULL {
                (FlushPhase::Unlocking(Poll::Pending), NULL, Step::Call(StackCall::Unlock))
            } else {
                (
                    FlushPhase::Copying,
                    reply.handle(),
                    Step::Call(
                        StackCall::PbufTake { pbuf: reply.handle(), len: self.len() as u16 },
                    ),
                )
            },
            FlushPhase::Copying => (
                FlushPhase::Feeding,
                self.pbuf,
                Step::Call(StackCall::NetifInput { pbuf: self.pbuf }),
            ),
            FlushPhase::Feeding => if reply is InputMissing {
                (
                    FlushPhase::Freeing(Poll::Ready(Err(IoError::InputFnNotSet))),
                    self.pbuf,
                    Step::Call(StackCall::PbufFree { pbuf: self.pbuf }),
                )
            } else if reply.status() == ERR_OK {
                (FlushPhase::Unlocking(flushed()), self.pbuf, Step::Call(StackCall::Unlock))
            } else {
                (
                    FlushPhase::Freeing(Poll::Ready(Err(IoError::Input(reply.status())))),
                    self.pbuf,
                    Step::Call(StackCall::PbufFree { pbuf: self.pbuf }),
                )
            },
            FlushPhase::Freeing(result) => (
                FlushPhase::Unlocking(result),
                self.pbuf,
                Step::Call(StackCall::Unlock),
            ),
            FlushPhase::Unlocking(result) => (
                FlushPhase::Finished(result),
                self.pbuf,
                Step::Done(result),
            ),
            FlushPhase::Finished(result) => (
                FlushPhase::Finished(result),
                self.pbuf,
                Step::Done(result),
            ),
        }
    }

    /// The packet's bytes, for the driver to copy into the pbuf.
    pub fn packet(&self) -> (bytes: &[u8])
        ensures
            bytes@ == match self.staged() {
                Some(item) => item,
                None => Seq::empty(),
            },
    {
        match &self.packet {
            Some(item) => item.as_slice(),
            None => &[],
        }
    }

    /// Takes the answer to the call handed out last (any answer on the
    /// first turn) and hands out the next call or the result.
    pub fn step(&mut self, reply: StackReply) -> (next: Step<Poll<Result<(), IoError>>>)
        ensures
            (final(self).phase, final(self).pbuf, next) == old(self).spec_step(reply),
            final(self).packet == old(self).packet,
            step_obeys(old(self).holds_lock(), next, final(self).holds_lock()),
    {
        let len = self.len();
        match self.phase {
            FlushPhase::Start => {
                if len == 0 {
                    self.phase = FlushPhase::Finished(Poll::Ready(Ok(())));
                    Step::Done(Poll::Ready(Ok(())))
                } else if len > MAX_CHUNK {
                    let refused = Poll::Ready(Err(IoError::Input(ERR_ARG)));
                    self.phase = FlushPhase::Finished(refused);
                    Step::Done(refused)
                } else {
                    self.phase = FlushPhase::Locking;
                    Step::Call(StackCall::Lock)
                }
            },
            FlushPhase::Locking => {
                self.phase = FlushPhase::Allocating;
                Step::Call(StackCall::PbufAlloc { len: len as u16 })
            },
            FlushPhase::Allocating => {
                let pbuf = reply.handle();
                if pbuf == NULL {
                    self.pbuf = NULL;
                    self.phase = FlushPhase::Unlocking(Poll::Pending);
                    Step::Call(StackCall::Unlock)
                } else {
                    self.pbuf = pbuf;
                    self.phase = FlushPhase::Copying;
                    Step::Call(StackCall::PbufTake { pbuf, len: len as u16 })
                }
            },
            FlushPhase::Copying => {
                self.phase = FlushPhase::Feeding;
                Step::Call(StackCall::NetifInput { pbuf: self.pbuf })
            },
            FlushPhase::Feeding => {
                if let StackReply::InputMissing = reply {
                    self.phase = FlushPhase::Freeing(Poll::Ready(Err(IoError::InputFnNotSet)));
                    Step::Call(StackCall::PbufFree { pbuf: self.pbuf })
                } else {
                    let err = reply.status();
                    if err == ERR_OK {
                        self.phase = FlushPhase::Unlocking(Poll::Ready(Ok(())));
                        Step::Call(StackCall::Unlock)
                    } else {
                        self.phase = FlushPhase::Freeing(Poll::Ready(Err(IoError::Input(err))));
                        Step::Call(StackCall::PbufFree { pbuf: self.pbuf })
                    }
                }
            },
            FlushPhase::Freeing(result) => {
                self.phase = FlushPhase::Unlocking(result);
                Step::Call(StackCall::Unlock)
            },
            FlushPhase::Unlocking(result) => {
                self.phase = FlushPhase::Finished(result);
                Step::Done(result)
            },
            FlushPhase::Finished(result) => Step::Done(result),
        }
    }
}

/// The calls a flush makes from its state on, given the answers in order,
/// and its result where the answers reach that far.
pub open spec fn flush_run(flush: IngressFlush, replies: Seq<StackReply>) -> (
    Seq<StackCall>,
    Option<Poll<Result<(), IoError>>>,
)
    decreases replies.len(),
{
    if replies.len() == 0 {
        (Seq::empty(), None)
    } else {
        let (phase, pbuf, next) = flush.spec_step(replies.first());
        match next {
            Step::Done(result) => (Seq::empty(), Some(result)),
            Step::Call(call) => {
                let rest = flush_run(
                    IngressFlush { phase, pbuf, packet: flush.packet },
                    replies.drop_first(),
                );
                (seq![call] + rest.0, rest.1)
            },
        }
    }
}

/// Whether the interface took the packet.
pub open spec fn accepted(fed: StackReply) -> bool {
    !(fed is InputMissing) && fed.status() == ERR_OK
}

/// All calls of a flush, by the packet's length, the pbuf the stack gave and
/// the answer of the interface's input.
pub open spec fn flush_calls(len: usize, pbuf: usize, fed: StackReply) -> Seq<StackCall> {
    if len == 0 || len > MAX_CHUNK {
        Seq::empty()
    } else if pbuf == NULL {
        seq![StackCall::Lock, StackCall::PbufAlloc { len: len as u16 }, StackCall::Unlock]
    } else if accepted(fed) {
        seq![
            StackCall::Lock,
            StackCall::PbufAlloc { len: len as u16 },
            StackCall::PbufTake { pbuf, len: len as u16 },
            StackCall::NetifInput { pbuf },
            StackCall::Unlock,
        ]
    } else {
        seq![
            StackCall::Lock,
            StackCall::PbufAlloc { len: len as u16 },
            StackCall::PbufTake { pbuf, len: len as u16 },
            StackCall::NetifInput { pbuf },
            StackCall::PbufFree { pbuf },
            StackCall::Unlock,
        ]
    }
}

/// The result of a flush, by the same three.
pub open spec fn flush_result(len: usize, pbuf: usize, fed: StackReply) -> Poll<
    Result<(), IoError>,
> {
    if len == 0 {
        flushed()
    } else if len > MAX_CHUNK {
        Poll::Ready(Err(IoError::Input(ERR_ARG)))
    } else if pbuf == NULL {
        Poll::Pending
    } else if fed is InputMissing {
        Poll::Ready(Err(IoError::InputFnNotSet))
    } else if fed.status() == ERR_OK {
        flushed()
    } else {
        Poll::Ready(Err(IoError::Input(fed.status())))
    }
}

/// A flush from its start, whatever the stack answers: at most one packet
/// is fed to the interface, and its pbuf is freed once if the interface did
/// not take it and not at all if it did. The answers that matter are the
/// third (to the allocation) and the fifth (to the input).
pub proof fn lemma_flush_run(flush: IngressFlush, replies: Seq<StackReply>)
    requires
        flush.phase == FlushPhase::Start,
        replies.len() >= 7,
    ensures
        flush_run(flush, replies) == (
            flush_calls(flush.len(), replies[2].handle(), replies[4]),
            Some(flush_result(flush.len(), replies[2].handle(), replies[4])),
        ),
{
    reveal_with_fuel(flush_run, 8);
    let r1 = replies.drop_first();
    let r2 = r1.drop_first();
    let r3 = r2.drop_first();
    let r4 = r3.drop_first();
    let r5 = r4.drop_first();
    let r6 = r5.drop_first();
    assert(r2.first() == replies[2]);
    assert(r4.first() == replies[4]);
    assert(flush_run(flush, replies).0 =~= flush_calls(
        flush.len(),
        replies[2].handle(),
        replies[4],
    ));
}

/// Where the timer pump stands in its cycle.
#[derive(Clone, Copy, Debug, PartialEq, Eq, Structural)]
pub enum PumpPhase {
    /// Before a tick: the lock is to be asked for.
    Idle,
    /// The lock was asked for.
    Locking,
    /// The stack's timers were run.
    Ticking,
    /// The lock was given back.
    Unlocking,
}

/// The timer pump: for ever, under the Stack Lock, run the stack's timers,
/// then sleep with the lock released.
#[derive(Clone, Copy, Debug, PartialEq, Eq, Structural)]
pub struct TimerPump {
    /// Where the pump stands.
    pub phase: PumpPhase,
}

impl TimerPump {
    /// Whether the pump holds the Stack Lock.
    pub open spec fn holds_lock(&self) -> bool {
        self.phase == PumpPhase::Locking || self.phase == PumpPhase::Ticking
    }

    /// The phase that follows and the call handed out.
    pub open spec fn spec_step(&self) -> (PumpPhase, StackCall) {
        match self.phase {
            PumpPhase::Idle => (PumpPhase::Locking, StackCall::Lock),
            PumpPhase::Locking => (PumpPhase::Ticking, StackCall::CheckTimeouts),
            PumpPhase::Ticking => (PumpPhase::Unlocking, StackCall::Unlock),
            PumpPhase::Unlocking => (
                PumpPhase::Idle,
                StackCall::Sleep { millis: TIMER_INTERVAL_MS },
            ),
        }
    }

    /// A pump before its first tick.
    pub fn new() -> (pump: Self)
        ensures
            pump.phase == PumpPhase::Idle,
    {
        TimerPump { phase: PumpPhase::Idle }
    }

    /// Hands out the next call. The pump never ends.
    pub fn step(&mut self, reply: StackReply) -> (next: Step<()>)
        ensures
            next == Step::<()>::Call(old(self).spec_step().1),
            final(self).phase == old(self).spec_step().0,
            step_obeys(old(self).holds_lock(), next, final(self).holds_lock()),
    {
        match self.phase {
            PumpPhase::Idle => {
                self.phase = PumpPhase::Locking;
                Step::Call(StackCall::Lock)
            },
            PumpPhase::Locking => {
                self.phase = PumpPhase::Ticking;
                Step::Call(StackCall::CheckTimeouts)
            },
            PumpPhase::Ticking => {
                self.phase = PumpPhase::Unlocking;
                Step::Call(StackCall::Unlock)
            },
            PumpPhase::Unlocking => {
                self.phase = PumpPhase::Idle;
                Step::Call(StackCall::Sleep { millis: TIMER_INTERVAL_MS })
            },
        }
    }
}

/// Every flush keeps the Stack Lock discipline: whatever the stack
/// answers, the calls it makes are permitted where they stand, those that
/// enter the stack are made under the lock, and the lock is free at the end.
pub proof fn lemma_flush_disciplined(len: usize, pbuf: usize, fed: StackReply)
    ensures
        disciplined(false, flush_calls(len, pbuf, fed)),
        !held_at_end(false, flush_calls(len, pbuf, fed)),
{
    reveal_with_fuel(disciplined, 7);
    reveal_with_fuel(held_at_end, 7);
}

} // verus!
