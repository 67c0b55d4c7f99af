//! The TCP connection bridge: one accepted connection as a duplex byte
//! stream.
//!
//! A stream is touched from two sides. The stack's callbacks (`recv_cb`,
//! `sent_cb`, `err_cb`) run with the Stack Lock held by whoever entered the
//! stack. The reader's and the writer's operations are procedures that take
//! the lock themselves before they look at the stream. Waking is left to
//! the driver: the stream only remembers who waits and says whom to wake.

use crate::lwip::{
    IpAddrT, StackCall, StackReply, Step, ERR_CLSD, ERR_MEM, ERR_OK, MAX_CHUNK, NULL,
};
use crate::mutex::{disciplined, held_at_end, step_obeys};
use crate::util::{host_socket_addr, to_socket_addr, SocketAddr};
use crate::Error;
use std::task::Poll;
use vstd::prelude::*;

verus! {

/// The fill of the receive buffer above which received bytes are no longer
/// acknowledged on arrival, so that the peer's window closes until the
/// reader has drained them.
pub const RECV_HIGH_WATER: usize = 0x1_0000;

/// Running totals of a stream, for stating what is conserved.
pub struct StreamTotals {
    /// Bytes copied into the receive buffer.
    pub received: nat,
    /// Bytes acknowledged to the stack.
    pub acked: nat,
    /// Bytes handed to the reader.
    pub delivered: nat,
    /// Bytes the stack accepted from the writer.
    pub accepted: nat,
    /// Bytes the stack reported as sent.
    pub reported: nat,
}

/// What a stream holds.
pub struct TcpStreamView {
    /// The connection's PCB; null once the stack has freed it.
    pub pcb: usize,
    /// The key under which the stack's callbacks find the stream.
    pub key: usize,
    pub local: SocketAddr,
    pub remote: SocketAddr,
    /// Received bytes the reader has not taken, oldest first.
    pub buffered: Seq<u8>,
    /// How many buffered bytes have not been acknowledged to the stack.
    pub withheld: nat,
    /// How many written bytes the stack has not reported as sent.
    pub unacked: nat,
    /// The peer has closed its direction.
    pub read_closed: bool,
    /// The sending direction has been closed.
    pub write_closed: bool,
    /// The fatal error the stack reported.
    pub error: Option<i8>,
    /// The reader waits for bytes.
    pub reader_parked: bool,
    /// The writer waits for buffer space or for the flush to complete.
    pub writer_parked: bool,
    pub totals: StreamTotals,
}

impl TcpStreamView {
    /// Ack conservation: every received byte is either acknowledged or
    /// withheld, and either delivered or buffered; while the PCB lives, the
    /// withheld bytes are buffered ones, so no delivered byte is
    /// unacknowledged and no byte is acknowledged before it was received.
    pub open spec fn ack_conserved(&self) -> bool {
        &&& self.totals.acked + self.withheld == self.totals.received
        &&& self.totals.delivered + self.buffered.len() == self.totals.received
        &&& self.pcb != NULL ==> self.withheld <= self.buffered.len()
    }

    /// Unack conservation: what the stack accepted, less what it reported
    /// as sent, is the unacknowledged count.
    pub open spec fn unack_conserved(&self) -> bool {
        self.totals.accepted - self.totals.reported == self.unacked
    }

    /// Whether a drop closes the PCB rather than aborting it: no fatal
    /// error was stored and the sending direction was shut down.
    pub open spec fn graceful(&self) -> bool {
        self.error is None && self.write_closed
    }
}

/// What the receive callback tells its caller to do.
#[derive(Clone, Copy, Debug, PartialEq, Eq, Structural)]
pub struct RecvVerdict {
    /// The callback's result for the stack.
    pub ret: i8,
    /// How many bytes to acknowledge to the stack now.
    pub recved: u16,
    /// Whether the pbuf is to be freed.
    pub free_pbuf: bool,
    /// Whether the reader is to be woken.
    pub wake_reader: bool,
    /// Whether the writer is to be woken.
    pub wake_writer: bool,
}

/// Whom a callback tells its caller to wake.
#[derive(Clone, Copy, Debug, PartialEq, Eq, Structural)]
pub struct WakeVerdict {
    pub wake_reader: bool,
    pub wake_writer: bool,
}

/// One accepted connection.
pub struct TcpStream {
    pcb: usize,
    key: usize,
    local: SocketAddr,
    remote: SocketAddr,
    recv_buf: Vec<u8>,
    withheld: usize,
    unacked: usize,
    read_closed: bool,
    write_closed: bool,
    error: Option<i8>,
    reader_parked: bool,
    writer_parked: bool,
    totals: Ghost<StreamTotals>,
}

/// The calls that attach a stream to its PCB: the user-data slot is set to
/// the stream's key before the three callbacks are registered.
pub open spec fn attach_calls(pcb: usize, key: usize) -> Seq<StackCall> {
    seq![
        StackCall::TcpArg { pcb, arg: key },
        StackCall::TcpRecv { pcb, on: true },
        StackCall::TcpSent { pcb, on: true },
        StackCall::TcpErr { pcb, on: true },
    ]
}

impl TcpStream {
    pub closed spec fn view(&self) -> TcpStreamView {
        TcpStreamView {
            pcb: self.pcb,
            key: self.key,
            local: self.local,
            remote: self.remote,
            buffered: self.recv_buf@,
            withheld: self.withheld as nat,
            unacked: self.unacked as nat,
            read_closed: self.read_closed,
            write_closed: self.write_closed,
            error: self.error,
            reader_parked: self.reader_parked,
            writer_parked: self.writer_parked,
            totals: self.totals@,
        }
    }

    /// The stream's receive accounting is consistent.
    pub open spec fn wf(&self) -> bool {
        self@.ack_conserved()
    }

    /// A stream for a PCB that the stack has just accepted, with the
    /// endpoints read from the PCB, and the calls that attach it. Called
    /// from the accept callback, with the Stack Lock held.
    pub fn new(
        pcb: usize,
        key: usize,
        local_ip: &IpAddrT,
        local_port: u16,
        remote_ip: &IpAddrT,
        remote_port: u16,
    ) -> (made: (Self, Vec<StackCall>))
        ensures
            made.0.wf(),
            made.0@.unack_conserved(),
            made.0@.pcb == pcb,
            made.0@.key == key,
            made.0@.local == host_socket_addr(*local_ip, local_port),
            made.0@.remote == host_socket_addr(*remote_ip, remote_port),
            made.0@.buffered.len() == 0,
            made.0@.withheld == 0,
            made.0@.unacked == 0,
            !made.0@.read_closed && !made.0@.write_closed,
            made.0@.error is None,
            !made.0@.reader_parked && !made.0@.writer_parked,
            made.1@ == attach_calls(pcb, key),
            disciplined(true, made.1@) && held_at_end(true, made.1@),
    {
        let stream = TcpStream {
            pcb,
            key,
            local: to_socket_addr(local_ip, local_port),
            remote: to_socket_addr(remote_ip, remote_port),
            recv_buf: Vec::new(),
            withheld: 0,
            unacked: 0,
            read_closed: false,
            write_closed: false,
            error: None,
            reader_parked: false,
            writer_parked: false,
            totals: Ghost(
                StreamTotals { received: 0, acked: 0, delivered: 0, accepted: 0, reported: 0 },
            ),
        };
        let mut calls: Vec<StackCall> = Vec::new();
        calls.push(StackCall::TcpArg { pcb, arg: key });
        calls.push(StackCall::TcpRecv { pcb, on: true });
        calls.push(StackCall::TcpSent { pcb, on: true });
        calls.push(StackCall::TcpErr { pcb, on: true });
        proof {
            assert(calls@ =~= attach_calls(pcb, key));
            lemma_held_throughout(calls@);
        }
        (stream, calls)
    }

    /// The local endpoint.
    pub fn local_addr(&self) -> (addr: SocketAddr)
        ensures
            addr == self@.local,
    {
        self.local
    }

    /// The remote endpoint.
    pub fn remote_addr(&self) -> (addr: SocketAddr)
        ensures
            addr == self@.remote,
    {
        self.remote
    }

    /// The key under which the stack's callbacks find the stream.
    pub fn key(&self) -> (key: usize)
        ensures
            key == self@.key,
    {
        self.key
    }

    /// The connection's PCB; null once the stack has freed it or the stream
    /// has let go of it.
    pub fn pcb(&self) -> (pcb: usize)
        ensures
            pcb == self@.pcb,
    {
        self.pcb
    }

    /// How many received bytes wait for the reader.
    pub fn buffered(&self) -> (n: usize)
        ensures
            n == self@.buffered.len(),
    {
        self.recv_buf.len()
    }

    /// How many buffered bytes have not been acknowledged to the stack.
    pub fn withheld(&self) -> (n: usize)
        ensures
            n == self@.withheld,
    {
        self.withheld
    }

    /// How many written bytes the stack has not reported as sent.
    pub fn unacked(&self) -> (n: usize)
        ensures
            n == self@.unacked,
    {
        self.unacked
    }

    /// The fatal error the stack reported, if any.
    pub fn error(&self) -> (e: Option<i8>)
        ensures
            e == self@.error,
    {
        self.error
    }

    /// Whether the peer has closed its direction.
    pub fn is_read_closed(&self) -> (closed: bool)
        ensures
            closed == self@.read_closed,
    {
        self.read_closed
    }

    /// Whether the sending direction has been closed.
    pub fn is_write_closed(&self) -> (closed: bool)
        ensures
            closed == self@.write_closed,
    {
        self.write_closed
    }

    /// The error a stream without a PCB answers with.
    fn failure(&self) -> (e: Error)
        ensures
            e == failure(self@),
    {
        match self.error {
            Some(code) => Error::LwIP(code),
            None => Error::LwIP(ERR_CLSD),
        }
    }

    /// Begins a read of up to `max` bytes.
    pub fn poll_read(&self, max: usize) -> (op: ReadOp)
        ensures
            op.phase == ReadPhase::Start,
            op.max == max,
            op.data@.len() == 0,
    {
        ReadOp { phase: ReadPhase::Start, max, data: Vec::new() }
    }

    /// Begins a write of a buffer of `len` bytes.
    pub fn poll_write(&self, len: usize) -> (op: WriteOp)
        ensures
            op == (WriteOp { phase: WritePhase::Start, len }),
    {
        WriteOp { phase: WritePhase::Start, len }
    }

    /// Begins a flush.
    pub fn poll_flush(&self) -> (op: FlushOp)
        ensures
            op.phase == SettlePhase::Start,
    {
        FlushOp { phase: SettlePhase::Start }
    }

    /// Begins a shutdown of the sending direction.
    pub fn poll_shutdown(&self) -> (op: ShutdownOp)
        ensures
            op.phase == SettlePhase::Start,
    {
        ShutdownOp { phase: SettlePhase::Start }
    }

    /// Begins the release of the stream, which is to be run when the stream
    /// is dropped.
    pub fn close(&self) -> (op: DropOp)
        ensures
            op == (DropOp { phase: DropPhase::Start, pcb: NULL, graceful: false }),
    {
        DropOp { phase: DropPhase::Start, pcb: NULL, graceful: false }
    }

    /// The receive callback. `data` is the payload of the pbuf the stack
    /// delivered, or nothing where the peer has closed its direction.
    ///
    /// - Nothing delivered: the read side is closed and the reader woken.
    /// - An error code: it is stored as fatal and both sides are woken.
    /// - Bytes: they join the receive buffer and the reader is woken. They
    ///   are acknowledged at once unless the buffer then stands above the
    ///   high-water mark, in which case they are withheld until read.
    ///
    /// A delivered pbuf is freed in every case but one: where the buffer
    /// cannot grow by the payload the stack is told to keep it (`ERR_MEM`).
    /// A stream whose PCB is gone ignores what is delivered.
    pub fn recv_cb(&mut self, data: Option<Vec<u8>>, err: i8) -> (verdict: RecvVerdict)
        requires
            old(self).wf(),
        ensures
            final(self).wf(),
            final(self)@.unack_conserved() == old(self)@.unack_conserved(),
            (final(self)@, verdict) == spec_recv_cb(
                old(self)@,
                match data {
                    Some(bytes) => Some(bytes@),
                    None => None,
                },
                err,
            ),
    {
        let wake_reader = self.reader_parked;
        let wake_writer = self.writer_parked;
        match data {
            None => {
                self.read_closed = true;
                self.reader_parked = false;
                RecvVerdict {
                    ret: ERR_OK,
                    recved: 0,
                    free_pbuf: false,
                    wake_reader,
                    wake_writer: false,
                }
            },
            Some(mut bytes) => {
                if self.pcb == NULL {
                    RecvVerdict {
                        ret: ERR_OK,
                        recved: 0,
                        free_pbuf: true,
                        wake_reader: false,
                        wake_writer: false,
                    }
                } else if err != ERR_OK {
                    self.error = Some(err);
                    self.reader_parked = false;
                    self.writer_parked = false;
                    RecvVerdict { ret: ERR_OK, recved: 0, free_pbuf: true, wake_reader, wake_writer }
                } else if bytes.len() > usize::MAX - self.recv_buf.len() {
                    RecvVerdict {
                        ret: ERR_MEM,
                        recved: 0,
                        free_pbuf: false,
                        wake_reader: false,
                        wake_writer: false,
                    }
                } else {
                    let n = bytes.len();
                    self.recv_buf.append(&mut bytes);
                    self.reader_parked = false;
                    let recved: u16 = if n <= MAX_CHUNK && self.recv_buf.len() <= RECV_HIGH_WATER {
                        n as u16
                    } else {
                        0
                    };
                    if recved == 0 {
                        self.withheld = self.withheld + n;
                    }
                    proof {
                        let t = self.totals@;
                        self.totals@ = StreamTotals {
                            received: t.received + n as nat,
                            acked: t.acked + recved as nat,
                            ..t
                        };
                    }
                    RecvVerdict {
                        ret: ERR_OK,
                        recved,
                        free_pbuf: true,
                        wake_reader,
                        wake_writer: false,
                    }
                }
            },
        }
    }

    /// The sent callback: the stack reports `len` more bytes as sent. The
    /// unacknowledged count falls by that much, to no less than 0, and a
    /// waiting writer is woken.
    pub fn sent_cb(&mut self, len: u16) -> (verdict: WakeVerdict)
        requires
            old(self).wf(),
        ensures
            final(self).wf(),
            (final(self)@, verdict) == spec_sent_cb(old(self)@, len),
            old(self)@.unack_conserved() && len <= old(self)@.unacked
                ==> final(self)@.unack_conserved(),
    {
        let wake_writer = self.writer_parked;
        self.writer_parked = false;
        if len as usize <= self.unacked {
            self.unacked = self.unacked - len as usize;
        } else {
            self.unacked = 0;
        }
        proof {
            let t = self.totals@;
            self.totals@ = StreamTotals { reported: t.reported + len as nat, ..t };
        }
        WakeVerdict { wake_reader: false, wake_writer }
    }

    /// The error callback: the stack has freed the PCB. The stream lets go
    /// of it, stores the error, closes both directions and wakes both
    /// sides. No later operation names the PCB again.
    pub fn err_cb(&mut self, err: i8) -> (verdict: WakeVerdict)
        requires
            old(self).wf(),
        ensures
            final(self).wf(),
            final(self)@.unack_conserved() == old(self)@.unack_conserved(),
            (final(self)@, verdict) == spec_err_cb(old(self)@, err),
    {
        let verdict = WakeVerdict {
            wake_reader: self.reader_parked,
            wake_writer: self.writer_parked,
        };
        self.pcb = NULL;
        self.error = Some(err);
        self.read_closed = true;
        self.write_closed = true;
        self.reader_parked = false;
        self.writer_parked = false;
        verdict
    }
}

/// A run of calls that all enter the stack is disciplined under a held
/// lock and leaves it held.
pub proof fn lemma_held_throughout(calls: Seq<StackCall>)
    requires
        forall|i: int| 0 <= i < calls.len() ==> (#[trigger] calls[i]).touches_stack(),
    ensures
        disciplined(true, calls),
        held_at_end(true, calls),
    decreases calls.len(),
{
    if calls.len() > 0 {
        lemma_held_throughout(calls.drop_last());
    }
}

/// The stream and the verdict after the receive callback.
pub open spec fn spec_recv_cb(s: TcpStreamView, data: Option<Seq<u8>>, err: i8) -> (
    TcpStreamView,
    RecvVerdict,
) {
    let quiet = RecvVerdict {
        ret: ERR_OK,
        recved: 0,
        free_pbuf: true,
        wake_reader: false,
        wake_writer: false,
    };
    match data {
        None => (
            TcpStreamView { read_closed: true, reader_parked: false, ..s },
            RecvVerdict { free_pbuf: false, wake_reader: s.reader_parked, ..quiet },
        ),
        Some(bytes) => if s.pcb == NULL {
            (s, quiet)
        } else if err != ERR_OK {
            (
                TcpStreamView {
                    error: Some(err),
                    reader_parked: false,
                    writer_parked: false,
                    ..s
                },
                RecvVerdict {
                    wake_reader: s.reader_parked,
                    wake_writer: s.writer_parked,
                    ..quiet
                },
            )
        } else if s.buffered.len() + bytes.len() > usize::MAX {
            (s, RecvVerdict { ret: ERR_MEM, free_pbuf: false, ..quiet })
        } else {
            let now = bytes.len() <= MAX_CHUNK && s.buffered.len() + bytes.len()
                <= RECV_HIGH_WATER;
            let recved = if now {
                bytes.len() as u16
            } else {
                0u16
            };
            let withheld = if recved == 0 {
                s.withheld + bytes.len()
            } else {
                s.withheld
            };
            (
                TcpStreamView {
                    buffered: s.buffered + bytes,
                    withheld: withheld as nat,
                    reader_parked: false,
                    totals: StreamTotals {
                        received: s.totals.received + bytes.len(),
                        acked: s.totals.acked + recved as nat,
                        ..s.totals
                    },
                    ..s
                },
                RecvVerdict { recved, wake_reader: s.reader_parked, ..quiet },
            )
        },
    }
}

/// The stream and the verdict after the sent callback.
pub open spec fn spec_sent_cb(s: TcpStreamView, len: u16) -> (TcpStreamView, WakeVerdict) {
    (
        TcpStreamView {
            unacked: if len <= s.unacked {
                (s.unacked - len) as nat
            } else {
                0
            },
            writer_parked: false,
            totals: StreamTotals { reported: s.totals.reported + len as nat, ..s.totals },
            ..s
        },
        WakeVerdict { wake_reader: false, wake_writer: s.writer_parked },
    )
}

/// The stream and the verdict after the error callback.
pub open spec fn spec_err_cb(s: TcpStreamView, err: i8) -> (TcpStreamView, WakeVerdict) {
    (
        TcpStreamView {
            pcb: NULL,
            error: Some(err),
            read_closed: true,
            write_closed: true,
            reader_parked: false,
            writer_parked: false,
            ..s
        },
        WakeVerdict { wake_reader: s.reader_parked, wake_writer: s.writer_parked },
    )
}

/// The smaller of two numbers.
pub open spec fn least(a: int, b: int) -> int {
    if a <= b {
        a
    } else {
        b
    }
}

/// What a read or a write gives: the number of bytes moved, or the stack's
/// error, or nothing yet.
pub type Moved = Poll<Result<usize, Error>>;

/// What a flush or a shutdown gives.
pub type Settled = Poll<Result<(), Error>>;

/// Where a read stands.
#[derive(Clone, Copy, Debug, PartialEq, Eq)]
pub enum ReadPhase {
    /// Nothing has been asked of the driver yet.
    Start,
    /// The lock was asked for.
    Locking,
    /// The acknowledgment of the bytes taken was asked for.
    Acking(Moved),
    /// The release of the lock was asked for.
    Unlocking(Moved),
    /// The read has ended with this result.
    Finished(Moved),
}

/// One read: under the Stack Lock, up to `max` bytes leave the receive
/// buffer, and those of them that were withheld are acknowledged.
pub struct ReadOp {
    /// Where the read stands.
    pub phase: ReadPhase,
    /// How many bytes the reader can take.
    pub max: usize,
    /// The bytes taken.
    pub data: Vec<u8>,
}

impl ReadOp {
    /// Whether the read holds the Stack Lock.
    pub open spec fn holds_lock(&self) -> bool {
        self.phase is Locking || self.phase is Acking
    }

    /// How many bytes a read takes: what is buffered, up to `max` and up to
    /// what one acknowledgment can name.
    pub open spec fn take_len(max: usize, s: TcpStreamView) -> int {
        least(least(max as int, s.buffered.len() as int), MAX_CHUNK as int)
    }

    /// The phase that follows, the bytes taken, the stream and what is
    /// handed to the driver.
    ///
    /// With the lock held: buffered bytes are taken first; with none left,
    /// a stored error is reported, then a closed read side as 0 bytes, and
    /// otherwise the reader is parked. Of the bytes taken, as many as were
    /// withheld are acknowledged to a live PCB.
    pub open spec fn spec_step(&self, s: TcpStreamView, reply: StackReply) -> (
        ReadPhase,
        Seq<u8>,
        TcpStreamView,
        Step<Moved>,
    ) {
        match self.phase {
            ReadPhase::Start => (ReadPhase::Locking, self.data@, s, Step::Call(StackCall::Lock)),
            ReadPhase::Locking => if s.buffered.len() > 0 {
                let k = Self::take_len(self.max, s);
                let owed = if s.pcb != NULL {
                    least(s.withheld as int, k)
                } else {
                    0
                };
                let after = TcpStreamView {
                    buffered: s.buffered.skip(k),
                    withheld: (s.withheld - owed) as nat,
                    totals: StreamTotals {
                        delivered: s.totals.delivered + k as nat,
                        acked: s.totals.acked + owed as nat,
                        ..s.totals
                    },
                    ..s
                };
                let result = Poll::Ready(Ok(k as usize));
                if owed > 0 {
                    (
                        ReadPhase::Acking(result),
                        s.buffered.take(k),
                        after,
                        Step::Call(StackCall::TcpRecved { pcb: s.pcb, len: owed as u16 }),
                    )
                } else {
                    (
                        ReadPhase::Unlocking(result),
                        s.buffered.take(k),
                        after,
                        Step::Call(StackCall::Unlock),
                    )
                }
            } else if let Some(code) = s.error {
                (
                    ReadPhase::Unlocking(Poll::Ready(Err(Error::LwIP(code)))),
                    self.data@,
                    s,
                    Step::Call(StackCall::Unlock),
                )
            } else if s.read_closed {
                (
                    ReadPhase::Unlocking(Poll::Ready(Ok(0usize))),
                    self.data@,
                    s,
                    Step::Call(StackCall::Unlock),
                )
            } else {
                (
                    ReadPhase::Unlocking(Poll::Pending),
                    self.data@,
                    TcpStreamView { reader_parked: true, ..s },
                    Step::Call(StackCall::Unlock),
                )
            },
            ReadPhase::Acking(result) => (
                ReadPhase::Unlocking(result),
                self.data@,
                s,
                Step::Call(StackCall::Unlock),
            ),
            ReadPhase::Unlocking(result) => (
                ReadPhase::Finished(result),
                self.data@,
                s,
                Step::Done(result),
            ),
            ReadPhase::Finished(result) => (
                ReadPhase::Finished(result),
                self.data@,
                s,
                Step::Done(result),
            ),
        }
    }

    /// The bytes taken.
    pub fn data(&self) -> (bytes: &[u8])
        ensures
            bytes@ == self.data@,
    {
        self.data.as_slice()
    }

    /// Takes the answer to the call handed out last (any answer on the
    /// first turn) and hands out the next call or the result.
    pub fn step(&mut self, stream: &mut TcpStream, reply: StackReply) -> (next: Step<Moved>)
        requires
            old(stream).wf(),
        ensures
            final(stream).wf(),
            final(stream)@.unack_conserved() == old(stream)@.unack_conserved(),
            (final(self).phase, final(self).data@, final(stream)@, next) == old(self).spec_step(
                old(stream)@,
                reply,
            ),
            final(self).max == old(self).max,
            step_obeys(old(self).holds_lock(), next, final(self).holds_lock()),
    {
        match self.phase {
            ReadPhase::Start => {
                self.phase = ReadPhase::Locking;
                Step::Call(StackCall::Lock)
            },
            ReadPhase::Locking => {
                let avail = stream.recv_buf.len();
                if avail > 0 {
                    let mut k = if self.max < avail {
                        self.max
                    } else {
                        avail
                    };
                    if k > MAX_CHUNK {
                        k = MAX_CHUNK;
                    }
                    let ghost before = stream.recv_buf@;
                    let mut taken = stream.recv_buf.split_off(k);
                    core::mem::swap(&mut stream.recv_buf, &mut taken);
                    self.data = taken;
                    let owed = if stream.pcb == NULL {
                        0
                    } else if stream.withheld < k {
                        stream.withheld
                    } else {
                        k
                    };
                    stream.withheld = stream.withheld - owed;
                    proof {
                        let t = stream.totals@;
                        stream.totals@ = StreamTotals {
                            delivered: t.delivered + k as nat,
                            acked: t.acked + owed as nat,
                            ..t
                        };
                        assert(stream.recv_buf@ =~= before.skip(k as int));
                        assert(self.data@ =~= before.take(k as int));
                    }
                    let result = Poll::Ready(Ok(k));
                    if owed > 0 {
                        self.phase = ReadPhase::Acking(result);
                        Step::Call(StackCall::TcpRecved { pcb: stream.pcb, len: owed as u16 })
                    } else {
                        self.phase = ReadPhase::Unlocking(result);
                        Step::Call(StackCall::Unlock)
                    }
                } else if let Some(code) = stream.error {
                    self.phase = ReadPhase::Unlocking(Poll::Ready(Err(Error::LwIP(code))));
                    Step::Call(StackCall::Unlock)
                } else if stream.read_closed {
                    self.phase = ReadPhase::Unlocking(Poll::Ready(Ok(0)));
                    Step::Call(StackCall::Unlock)
                } else {
                    stream.reader_parked = true;
                    self.phase = ReadPhase::Unlocking(Poll::Pending);
                    Step::Call(StackCall::Unlock)
                }
            },
            ReadPhase::Acking(result) => {
                self.phase = ReadPhase::Unlocking(result);
                Step::Call(StackCall::Unlock)
            },
            ReadPhase::Unlocking(result) => {
                self.phase = ReadPhase::Finished(result);
                Step::Done(result)
            },
            ReadPhase::Finished(result) => Step::Done(result),
        }
    }
}

/// Where a write stands.
#[derive(Clone, Copy, Debug, PartialEq, Eq)]
pub enum WritePhase {
    /// Nothing has been asked of the driver yet.
    Start,
    /// The lock was asked for.
    Locking,
    /// The room in the send buffer was asked for.
    Sizing,
    /// The stack was asked to enqueue this many bytes.
    Writing(u16),
    /// The stack was asked to transmit, this many bytes being enqueued.
    Pushing(u16),
    /// The release of the lock was asked for.
    Unlocking(Moved),
    /// The write has ended with this result.
    Finished(Moved),
}

/// One write of a buffer of `len` bytes: under the Stack Lock, as many of
/// its first bytes as the send buffer has room for are enqueued.
#[derive(Clone, Copy, Debug, PartialEq, Eq)]
pub struct WriteOp {
    /// Where the write stands.
    pub phase: WritePhase,
    /// The length of the buffer offered.
    pub len: usize,
}

/// The error a stream without a PCB answers with: the stored one, or
/// "closed".
pub open spec fn failure(s: TcpStreamView) -> Error {
    match s.error {
        Some(code) => Error::LwIP(code),
        None => Error::LwIP(ERR_CLSD),
    }
}

impl WriteOp {
    /// Whether the write holds the Stack Lock.
    pub open spec fn holds_lock(&self) -> bool {
        self.phase is Locking || self.phase is Sizing || self.phase is Writing
            || self.phase is Pushing
    }

    /// How many bytes a write offers to the stack: the buffer's length, up
    /// to the room the stack reported, to what one call can name and to
    /// what the unacknowledged count can still take.
    pub open spec fn offer_len(len: usize, room: u16, s: TcpStreamView) -> int {
        least(least(len as int, room as int), usize::MAX - s.unacked)
    }

    /// The stream once the stack has accepted `n` more bytes.
    pub open spec fn accepted(s: TcpStreamView, n: u16) -> TcpStreamView {
        TcpStreamView {
            unacked: least(s.unacked + n, usize::MAX as int) as nat,
            totals: StreamTotals { accepted: s.totals.accepted + n as nat, ..s.totals },
            ..s
        }
    }

    /// The phase that follows, the stream and what is handed to the driver.
    ///
    /// With the lock held: a stream that has a stored error, no PCB or a
    /// closed write side fails; an empty buffer is written as 0 bytes; else
    /// the stack is asked for room. Without room the writer is parked. The
    /// stack's refusal for want of memory parks the writer too; any other
    /// refusal is the write's error. What the stack accepts is added to the
    /// unacknowledged count, neither more nor less, and transmitted.
    pub open spec fn spec_step(&self, s: TcpStreamView, reply: StackReply) -> (
        WritePhase,
        TcpStreamView,
        Step<Moved>,
    ) {
        let failed = (
            WritePhase::Unlocking(Poll::Ready(Err(failure(s)))),
            s,
            Step::Call(StackCall::Unlock),
        );
        let parked = (
            WritePhase::Unlocking(Poll::Pending),
            TcpStreamView { writer_parked: true, ..s },
            Step::Call(StackCall::Unlock),
        );
        match self.phase {
            WritePhase::Start => (WritePhase::Locking, s, Step::Call(StackCall::Lock)),
            WritePhase::Locking => if s.error is Some || s.pcb == NULL || s.write_closed {
                failed
            } else if self.len == 0 {
                (
                    WritePhase::Unlocking(Poll::Ready(Ok(0usize))),
                    s,
                    Step::Call(StackCall::Unlock),
                )
            } else {
                (WritePhase::Sizing, s, Step::Call(StackCall::TcpSndbuf { pcb: s.pcb }))
            },
            WritePhase::Sizing => {
                let n = Self::offer_len(self.len, reply.size(), s);
                if s.pcb == NULL {
                    failed
                } else if n == 0 {
                    parked
                } else {
                    (
                        WritePhase::Writing(n as u16),
                        s,
                        Step::Call(StackCall::TcpWrite { pcb: s.pcb, len: n as u16 }),
                    )
                }
            },
            WritePhase::Writing(n) => if reply.status() == ERR_OK {
                if s.pcb == NULL {
                    (
                        WritePhase::Unlocking(Poll::Ready(Ok(n as usize))),
                        Self::accepted(s, n),
                        Step::Call(StackCall::Unlock),
                    )
                } else {
                    (
                        WritePhase::Pushing(n),
                        Self::accepted(s, n),
                        Step::Call(StackCall::TcpOutput { pcb: s.pcb }),
                    )
                }
            } else if reply.status() == ERR_MEM {
                parked
            } else {
                (
                    WritePhase::Unlocking(Poll::Ready(Err(Error::LwIP(reply.status())))),
                    s,
                    Step::Call(StackCall::Unlock),
                )
            },
            WritePhase::Pushing(n) => (
                WritePhase::Unlocking(Poll::Ready(Ok(n as usize))),
                s,
                Step::Call(StackCall::Unlock),
            ),
            WritePhase::Unlocking(result) => (WritePhase::Finished(result), s, Step::Done(result)),
            WritePhase::Finished(result) => (WritePhase::Finished(result), s, Step::Done(result)),
        }
    }

    /// Takes the answer to the call handed out last (any answer on the
    /// first turn) and hands out the next call or the result.
    pub fn step(&mut self, stream: &mut TcpStream, reply: StackReply) -> (next: Step<Moved>)
        requires
            old(stream).wf(),
        ensures
            final(stream).wf(),
            (final(self).phase, final(stream)@, next) == old(self).spec_step(old(stream)@, reply),
            final(self).len == old(self).len,
            old(stream)@.unack_conserved() && old(stream)@.unacked + MAX_CHUNK <= usize::MAX
                ==> final(stream)@.unack_conserved(),
            step_obeys(old(self).holds_lock(), next, final(self).holds_lock()),
    {
        match self.phase {
            WritePhase::Start => {
                self.phase = WritePhase::Locking;
                Step::Call(StackCall::Lock)
            },
            WritePhase::Locking => {
                if stream.error.is_some() || stream.pcb == NULL || stream.write_closed {
                    self.phase = WritePhase::Unlocking(Poll::Ready(Err(stream.failure())));
                    Step::Call(StackCall::Unlock)
                } else if self.len == 0 {
                    self.phase = WritePhase::Unlocking(Poll::Ready(Ok(0)));
                    Step::Call(StackCall::Unlock)
                } else {
                    self.phase = WritePhase::Sizing;
                    Step::Call(StackCall::TcpSndbuf { pcb: stream.pcb })
                }
            },
            WritePhase::Sizing => {
                let room = reply.size();
                let mut n: usize = if self.len < room as usize {
                    self.len
                } else {
                    room as usize
                };
                if n > usize::MAX - stream.unacked {
                    n = usize::MAX - stream.unacked;
                }
                if stream.pcb == NULL {
                    self.phase = WritePhase::Unlocking(Poll::Ready(Err(stream.failure())));
                    Step::Call(StackCall::Unlock)
                } else if n == 0 {
                    stream.writer_parked = true;
                    self.phase = WritePhase::Unlocking(Poll::Pending);
                    Step::Call(StackCall::Unlock)
                } else {
                    self.phase = WritePhase::Writing(n as u16);
                    Step::Call(StackCall::TcpWrite { pcb: stream.pcb, len: n as u16 })
                }
            },
            WritePhase::Writing(n) => {
                let status = reply.status();
                if status == ERR_OK {
                    if n as usize <= usize::MAX - stream.unacked {
                        stream.unacked = stream.unacked + n as usize;
                    } else {
                        stream.unacked = usize::MAX;
                    }
                    proof {
                        let t = stream.totals@;
                        stream.totals@ = StreamTotals { accepted: t.accepted + n as nat, ..t };
                    }
                    if stream.pcb == NULL {
                        self.phase = WritePhase::Unlocking(Poll::Ready(Ok(n as usize)));
                        Step::Call(StackCall::Unlock)
                    } else {
                        self.phase = WritePhase::Pushing(n);
                        Step::Call(StackCall::TcpOutput { pcb: stream.pcb })
                    }
                } else if status == ERR_MEM {
                    stream.writer_parked = true;
                    self.phase = WritePhase::Unlocking(Poll::Pending);
                    Step::Call(StackCall::Unlock)
                } else {
                    self.phase = WritePhase::Unlocking(Poll::Ready(Err(Error::LwIP(status))));
                    Step::Call(StackCall::Unlock)
                }
            },
            WritePhase::Pushing(n) => {
                self.phase = WritePhase::Unlocking(Poll::Ready(Ok(n as usize)));
                Step::Call(StackCall::Unlock)
            },
            WritePhase::Unlocking(result) => {
                self.phase = WritePhase::Finished(result);
                Step::Done(result)
            },
            WritePhase::Finished(result) => Step::Done(result),
        }
    }
}

/// Where a flush or a shutdown stands.
#[derive(Clone, Copy, Debug, PartialEq, Eq)]
pub enum SettlePhase {
    /// Nothing has been asked of the driver yet.
    Start,
    /// The lock was asked for.
    Locking,
    /// The half-close was asked for.
    Closing,
    /// The release of the lock was asked for.
    Unlocking(Settled),
    /// The procedure has ended with this result.
    Finished(Settled),
}

/// One flush: under the Stack Lock, see whether everything written has been
/// reported as sent.
#[derive(Clone, Copy, Debug, PartialEq, Eq)]
pub struct FlushOp {
    /// Where the flush stands.
    pub phase: SettlePhase,
}

impl FlushOp {
    /// Whether the flush holds the Stack Lock.
    pub open spec fn holds_lock(&self) -> bool {
        self.phase is Locking || self.phase is Closing
    }

    /// The phase that follows, the stream and what is handed to the driver.
    ///
    /// With the lock held: a stored error is reported; with nothing
    /// unacknowledged the flush is complete; otherwise the writer is parked.
    pub open spec fn spec_step(&self, s: TcpStreamView, reply: StackReply) -> (
        SettlePhase,
        TcpStreamView,
        Step<Settled>,
    ) {
        match self.phase {
            SettlePhase::Start => (SettlePhase::Locking, s, Step::Call(StackCall::Lock)),
            SettlePhase::Locking => if let Some(code) = s.error {
                (
                    SettlePhase::Unlocking(Poll::Ready(Err(Error::LwIP(code)))),
                    s,
                    Step::Call(StackCall::Unlock),
                )
            } else if s.unacked == 0 {
                (SettlePhase::Unlocking(Poll::Ready(Ok(()))), s, Step::Call(StackCall::Unlock))
            } else {
                (
                    SettlePhase::Unlocking(Poll::Pending),
                    TcpStreamView { writer_parked: true, ..s },
                    Step::Call(StackCall::Unlock),
                )
            },
            SettlePhase::Closing => (
                SettlePhase::Unlocking(Poll::Pending),
                s,
                Step::Call(StackCall::Unlock),
            ),
            SettlePhase::Unlocking(result) => (
                SettlePhase::Finished(result),
                s,
                Step::Done(result),
            ),
            SettlePhase::Finished(result) => (SettlePhase::Finished(result), s, Step::Done(result)),
        }
    }

    /// Takes the answer to the call handed out last (any answer on the
    /// first turn) and hands out the next call or the result.
    pub fn step(&mut self, stream: &mut TcpStream, reply: StackReply) -> (next: Step<Settled>)
        requires
            old(stream).wf(),
        ensures
            final(stream).wf(),
            final(stream)@.unack_conserved() == old(stream)@.unack_conserved(),
            (final(self).phase, final(stream)@, next) == old(self).spec_step(old(stream)@, reply),
            step_obeys(old(self).holds_lock(), next, final(self).holds_lock()),
    {
        match self.phase {
            SettlePhase::Start => {
                self.phase = SettlePhase::Locking;
                Step::Call(StackCall::Lock)
            },
            SettlePhase::Locking => {
                if let Some(code) = stream.error {
                    self.phase = SettlePhase::Unlocking(Poll::Ready(Err(Error::LwIP(code))));
                } else if stream.unacked == 0 {
                    self.phase = SettlePhase::Unlocking(Poll::Ready(Ok(())));
                } else {
                    stream.writer_parked = true;
                    self.phase = SettlePhase::Unlocking(Poll::Pending);
                }
                Step::Call(StackCall::Unlock)
            },
            SettlePhase::Closing => {
                self.phase = SettlePhase::Unlocking(Poll::Pending);
                Step::Call(StackCall::Unlock)
            },
            SettlePhase::Unlocking(result) => {
                self.phase = SettlePhase::Finished(result);
                Step::Done(result)
            },
            SettlePhase::Finished(result) => Step::Done(result),
        }
    }
}

/// One shutdown: under the Stack Lock, the sending direction is half-closed
/// and the stream marked write-closed.
#[derive(Clone, Copy, Debug, PartialEq, Eq)]
pub struct ShutdownOp {
    /// Where the shutdown stands.
    pub phase: SettlePhase,
}

impl ShutdownOp {
    /// Whether the shutdown holds the Stack Lock.
    pub open spec fn holds_lock(&self) -> bool {
        self.phase is Locking || self.phase is Closing
    }

    /// The phase that follows, the stream and what is handed to the driver.
    ///
    /// With the lock held: a stored error is reported; a stream already
    /// write-closed, or without a PCB, has nothing to shut; otherwise the
    /// stack is asked to half-close, and the stream is write-closed if it
    /// agrees and reports the stack's code if not.
    pub open spec fn spec_step(&self, s: TcpStreamView, reply: StackReply) -> (
        SettlePhase,
        TcpStreamView,
        Step<Settled>,
    ) {
        match self.phase {
            SettlePhase::Start => (SettlePhase::Locking, s, Step::Call(StackCall::Lock)),
            SettlePhase::Locking => if let Some(code) = s.error {
                (
                    SettlePhase::Unlocking(Poll::Ready(Err(Error::LwIP(code)))),
                    s,
                    Step::Call(StackCall::Unlock),
                )
            } else if s.write_closed || s.pcb == NULL {
                (SettlePhase::Unlocking(Poll::Ready(Ok(()))), s, Step::Call(StackCall::Unlock))
            } else {
                (SettlePhase::Closing, s, Step::Call(StackCall::TcpShutdownTx { pcb: s.pcb }))
            },
            SettlePhase::Closing => if reply.status() == ERR_OK {
                (
                    SettlePhase::Unlocking(Poll::Ready(Ok(()))),
                    TcpStreamView { write_closed: true, ..s },
                    Step::Call(StackCall::Unlock),
                )
            } else {
                (
                    SettlePhase::Unlocking(Poll::Ready(Err(Error::LwIP(reply.status())))),
                    s,
                    Step::Call(StackCall::Unlock),
                )
            },
            SettlePhase::Unlocking(result) => (
                SettlePhase::Finished(result),
                s,
                Step::Done(result),
            ),
            SettlePhase::Finished(result) => (SettlePhase::Finished(result), s, Step::Done(result)),
        }
    }

    /// Takes the answer to the call handed out last (any answer on the
    /// first turn) and hands out the next call or the result.
    pub fn step(&mut self, stream: &mut TcpStream, reply: StackReply) -> (next: Step<Settled>)
        requires
            old(stream).wf(),
        ensures
            final(stream).wf(),
            final(stream)@.unack_conserved() == old(stream)@.unack_conserved(),
            (final(self).phase, final(stream)@, next) == old(self).spec_step(old(stream)@, reply),
            step_obeys(old(self).holds_lock(), next, final(self).holds_lock()),
    {
        match self.phase {
            SettlePhase::Start => {
                self.phase = SettlePhase::Locking;
                Step::Call(StackCall::Lock)
            },
            SettlePhase::Locking => {
                if let Some(code) = stream.error {
                    self.phase = SettlePhase::Unlocking(Poll::Ready(Err(Error::LwIP(code))));
                    Step::Call(StackCall::Unlock)
                } else if stream.write_closed || stream.pcb == NULL {
                    self.phase = SettlePhase::Unlocking(Poll::Ready(Ok(())));
                    Step::Call(StackCall::Unlock)
                } else {
                    self.phase = SettlePhase::Closing;
                    Step::Call(StackCall::TcpShutdownTx { pcb: stream.pcb })
                }
            },
            SettlePhase::Closing => {
                let status = reply.status();
                if status == ERR_OK {
                    stream.write_closed = true;
                    self.phase = SettlePhase::Unlocking(Poll::Ready(Ok(())));
                } else {
                    self.phase = SettlePhase::Unlocking(Poll::Ready(Err(Error::LwIP(status))));
                }
                Step::Call(StackCall::Unlock)
            },
            SettlePhase::Unlocking(result) => {
                self.phase = SettlePhase::Finished(result);
                Step::Done(result)
            },
            SettlePhase::Finished(result) => Step::Done(result),
        }
    }
}

/// Where the release of a stream stands.
#[derive(Clone, Copy, Debug, PartialEq, Eq, Structural)]
pub enum DropPhase {
    /// Nothing has been asked of the driver yet.
    Start,
    /// The lock was asked for.
    Locking,
    /// The user-data slot was nulled.
    Detaching,
    /// The receive callback was unregistered.
    MutingRecv,
    /// The sent callback was unregistered.
    MutingSent,
    /// The error callback was unregistered.
    MutingErr,
    /// The close was asked for.
    Closing,
    /// The abort was asked for.
    Aborting,
    /// The release of the lock was asked for.
    Unlocking,
    /// The release has ended.
    Finished,
}

/// The release of a stream: under the Stack Lock, a live PCB is detached
/// from the stream, its callbacks are unregistered, and it is closed or
/// aborted.
#[derive(Clone, Copy, Debug, PartialEq, Eq, Structural)]
pub struct DropOp {
    /// Where the release stands.
    pub phase: DropPhase,
    /// The PCB being released.
    pub pcb: usize,
    /// Whether the PCB is closed rather than aborted.
    pub graceful: bool,
}

impl DropOp {
    /// Whether the release holds the Stack Lock.
    pub open spec fn holds_lock(&self) -> bool {
        !(self.phase is Start || self.phase is Unlocking || self.phase is Finished)
    }

    /// The release that follows, the stream and what is handed to the
    /// driver.
    ///
    /// With the lock held, a stream without a PCB needs nothing. Otherwise
    /// the stream lets go of the PCB and both directions are closed; the
    /// PCB's user-data slot is nulled first, then the three callbacks are
    /// unregistered. The PCB is closed if no fatal error was stored and the
    /// sending direction had been shut down, and aborted if the close fails;
    /// in every other case it is aborted.
    pub open spec fn spec_step(&self, s: TcpStreamView, reply: StackReply) -> (
        DropOp,
        TcpStreamView,
        Step<()>,
    ) {
        let pcb = self.pcb;
        let unlock = (DropOp { phase: DropPhase::Unlocking, ..*self }, s, Step::Call(
            StackCall::Unlock,
        ));
        match self.phase {
            DropPhase::Start => (
                DropOp { phase: DropPhase::Locking, ..*self },
                s,
                Step::Call(StackCall::Lock),
            ),
            DropPhase::Locking => if s.pcb == NULL {
                unlock
            } else {
                (
                    DropOp { phase: DropPhase::Detaching, pcb: s.pcb, graceful: s.graceful() },
                    TcpStreamView { pcb: NULL, read_closed: true, write_closed: true, ..s },
                    Step::Call(StackCall::TcpArg { pcb: s.pcb, arg: NULL }),
                )
            },
            DropPhase::Detaching => (
                DropOp { phase: DropPhase::MutingRecv, ..*self },
                s,
                Step::Call(StackCall::TcpRecv { pcb, on: false }),
            ),
            DropPhase::MutingRecv => (
                DropOp { phase: DropPhase::MutingSent, ..*self },
                s,
                Step::Call(StackCall::TcpSent { pcb, on: false }),
            ),
            DropPhase::MutingSent => (
                DropOp { phase: DropPhase::MutingErr, ..*self },
                s,
                Step::Call(StackCall::TcpErr { pcb, on: false }),
            ),
            DropPhase::MutingErr => if self.graceful {
                (
                    DropOp { phase: DropPhase::Closing, ..*self },
                    s,
                    Step::Call(StackCall::TcpClose { pcb }),
                )
            } else {
                (
                    DropOp { phase: DropPhase::Aborting, ..*self },
                    s,
                    Step::Call(StackCall::TcpAbort { pcb }),
                )
            },
            DropPhase::Closing => if reply.status() == ERR_OK {
                unlock
            } else {
                (
                    DropOp { phase: DropPhase::Aborting, ..*self },
                    s,
                    Step::Call(StackCall::TcpAbort { pcb }),
                )
            },
            DropPhase::Aborting => unlock,
            DropPhase::Unlocking => (
                DropOp { phase: DropPhase::Finished, ..*self },
                s,
                Step::Done(()),
            ),
            DropPhase::Finished => (*self, s, Step::Done(())),
        }
    }

    /// Takes the answer to the call handed out last (any answer on the
    /// first turn) and hands out the next call or ends.
    pub fn step(&mut self, stream: &mut TcpStream, reply: StackReply) -> (next: Step<()>)
        requires
            old(stream).wf(),
        ensures
            final(stream).wf(),
            final(stream)@.unack_conserved() == old(stream)@.unack_conserved(),
            (*final(self), final(stream)@, next) == old(self).spec_step(old(stream)@, reply),
            step_obeys(old(self).holds_lock(), next, final(self).holds_lock()),
    {
        let pcb = self.pcb;
        match self.phase {
            DropPhase::Start => {
                self.phase = DropPhase::Locking;
                Step::Call(StackCall::Lock)
            },
            DropPhase::Locking => {
                if stream.pcb == NULL {
                    self.phase = DropPhase::Unlocking;
                    Step::Call(StackCall::Unlock)
                } else {
                    self.pcb = stream.pcb;
                    self.graceful = stream.error.is_none() && stream.write_closed;
                    self.phase = DropPhase::Detaching;
                    stream.pcb = NULL;
                    stream.read_closed = true;
                    stream.write_closed = true;
                    Step::Call(StackCall::TcpArg { pcb: self.pcb, arg: NULL })
                }
            },
            DropPhase::Detaching => {
                self.phase = DropPhase::MutingRecv;
                Step::Call(StackCall::TcpRecv { pcb, on: false })
            },
            DropPhase::MutingRecv => {
                self.phase = DropPhase::MutingSent;
                Step::Call(StackCall::TcpSent { pcb, on: false })
            },
            DropPhase::MutingSent => {
                self.phase = DropPhase::MutingErr;
                Step::Call(StackCall::TcpErr { pcb, on: false })
            },
            DropPhase::MutingErr => {
                if self.graceful {
                    self.phase = DropPhase::Closing;
                    Step::Call(StackCall::TcpClose { pcb })
                } else {
                    self.phase = DropPhase::Aborting;
                    Step::Call(StackCall::TcpAbort { pcb })
                }
            },
            DropPhase::Closing => {
                if reply.status() == ERR_OK {
                    self.phase = DropPhase::Unlocking;
                    Step::Call(StackCall::Unlock)
                } else {
                    self.phase = DropPhase::Aborting;
                    Step::Call(StackCall::TcpAbort { pcb })
                }
            },
            DropPhase::Aborting => {
                self.phase = DropPhase::Unlocking;
                Step::Call(StackCall::Unlock)
            },
            DropPhase::Unlocking => {
                self.phase = DropPhase::Finished;
                Step::Done(())
            },
            DropPhase::Finished => Step::Done(()),
        }
    }
}

/// The calls a release makes from its state on, given the answers in order.
pub open spec fn drop_run(op: DropOp, s: TcpStreamView, replies: Seq<StackReply>) -> Seq<
    StackCall,
>
    decreases replies.len(),
{
    if replies.len() == 0 {
        Seq::empty()
    } else {
        let (after, stream, next) = op.spec_step(s, replies.first());
        match next {
            Step::Done(_) => Seq::empty(),
            Step::Call(call) => seq![call] + drop_run(after, stream, replies.drop_first()),
        }
    }
}

/// All calls of the release of a stream, by its PCB, whether it is released
/// gracefully, and the answer to the close.
pub open spec fn drop_calls(pcb: usize, graceful: bool, closed: StackReply) -> Seq<StackCall> {
    let detach = seq![
        StackCall::Lock,
        StackCall::TcpArg { pcb, arg: NULL },
        StackCall::TcpRecv { pcb, on: false },
        StackCall::TcpSent { pcb, on: false },
        StackCall::TcpErr { pcb, on: false },
    ];
    if pcb == NULL {
        seq![StackCall::Lock, StackCall::Unlock]
    } else if !graceful {
        detach + seq![StackCall::TcpAbort { pcb }, StackCall::Unlock]
    } else if closed.status() == ERR_OK {
        detach + seq![StackCall::TcpClose { pcb }, StackCall::Unlock]
    } else {
        detach + seq![StackCall::TcpClose { pcb }, StackCall::TcpAbort { pcb }, StackCall::Unlock]
    }
}

/// Drop safety: whatever the stack answers, the release of a stream nulls
/// the PCB's user-data slot and unregisters its callbacks before the PCB is
/// closed or aborted, names no PCB where the stream has none, and decides
/// between close and abort as `drop_calls` says. The answer that matters is
/// the seventh (to the close).
pub proof fn lemma_drop_run(s: TcpStreamView, replies: Seq<StackReply>)
    requires
        replies.len() >= 10,
    ensures
        drop_run(DropOp { phase: DropPhase::Start, pcb: NULL, graceful: false }, s, replies)
            == drop_calls(s.pcb, s.graceful(), replies[6]),
{
    reveal_with_fuel(drop_run, 11);
    let r1 = replies.drop_first();
    let r2 = r1.drop_first();
    let r3 = r2.drop_first();
    let r4 = r3.drop_first();
    let r5 = r4.drop_first();
    let r6 = r5.drop_first();
    let r7 = r6.drop_first();
    let r8 = r7.drop_first();
    let r9 = r8.drop_first();
    assert(r6.first() == replies[6]);
    assert(drop_run(DropOp { phase: DropPhase::Start, pcb: NULL, graceful: false }, s, replies)
        =~= drop_calls(s.pcb, s.graceful(), replies[6]));
}

/// Ack conservation, read off a consistent stream: no byte is acknowledged
/// before it was received; while the PCB lives every byte handed to the
/// reader has been acknowledged; and once the reader has drained a live
/// stream, received, acknowledged and delivered bytes are the same count.
pub proof fn lemma_ack_conservation(s: TcpStreamView)
    requires
        s.ack_conserved(),
    ensures
        s.totals.acked <= s.totals.received,
        s.totals.delivered <= s.totals.received,
        s.pcb != NULL ==> s.totals.delivered <= s.totals.acked,
        s.pcb != NULL && s.buffered.len() == 0 ==> s.totals.acked == s.totals.delivered
            && s.totals.delivered == s.totals.received,
{
}

/// Every release keeps the Stack Lock discipline: whatever the stack
/// answers, the calls it makes are permitted where they stand, those that
/// enter the stack are made under the lock, and the lock is free at the end.
pub proof fn lemma_drop_disciplined(pcb: usize, graceful: bool, closed: StackReply)
    ensures
        disciplined(false, drop_calls(pcb, graceful, closed)),
        !held_at_end(false, drop_calls(pcb, graceful, closed)),
{
    reveal_with_fuel(disciplined, 9);
    reveal_with_fuel(held_at_end, 9);
}

} // verus!
