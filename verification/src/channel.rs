//! The bounded queues between the stack's callbacks and the readers.
//!
//! Both are `tokio::sync::mpsc` channels. This crate keeps the two ends of a
//! channel side by side in one owner, never clones the sender and never
//! closes the receiver, so what a channel holds is decided by the calls made
//! here alone. The contracts below are what tokio's source shows for that
//! use; Verus takes them on trust.

use crate::util::SocketAddr;
use crate::tcp_listener_impl::Accepted;
use tokio::sync::mpsc::{Receiver, Sender, UnboundedReceiver, UnboundedSender};
use vstd::prelude::*;

verus! {

/// `tokio::sync::mpsc::Sender`, carried through without a look inside.
#[verifier::external_type_specification]
#[verifier::external_body]
#[verifier::reject_recursive_types(T)]
pub struct ExSender<T>(Sender<T>);

/// `tokio::sync::mpsc::Receiver`, carried through without a look inside.
#[verifier::external_type_specification]
#[verifier::external_body]
#[verifier::reject_recursive_types(T)]
pub struct ExReceiver<T>(Receiver<T>);

/// The largest buffer a channel can be made with (tokio's semaphore limit).
pub const MAX_BUFFER: usize = usize::MAX / 8;

/// The packets waiting in a packet channel, oldest first.
pub uninterp spec fn packets_queued(rx: Receiver<Vec<u8>>) -> Seq<Seq<u8>>;

/// The buffer size a packet channel was made with.
pub uninterp spec fn packets_limit(rx: Receiver<Vec<u8>>) -> nat;

/// Whether the two are the ends of one packet channel.
pub uninterp spec fn packets_joined(tx: Sender<Vec<u8>>, rx: Receiver<Vec<u8>>) -> bool;

/// `tokio::sync::mpsc::channel`: a new, empty channel that holds at most
/// `buffer` messages. It panics on a buffer of 0 and on one over
/// `MAX_BUFFER`.
#[verifier::external_body]
pub(crate) fn packet_channel(buffer: usize) -> (ends: (Sender<Vec<u8>>, Receiver<Vec<u8>>))
    requires
        0 < buffer <= MAX_BUFFER,
    ensures
        packets_joined(ends.0, ends.1),
        packets_queued(ends.1) == Seq::<Seq<u8>>::empty(),
        packets_limit(ends.1) == buffer,
{
    tokio::sync::mpsc::channel(buffer)
}

/// `Sender::try_send`: appends the packet where fewer than the limit are
/// waiting, and refuses it otherwise, without waiting either way. The
/// receiver is named because the queue it reads is what changes.
#[verifier::external_body]
pub(crate) fn packet_try_send(
    tx: &Sender<Vec<u8>>,
    rx: &mut Receiver<Vec<u8>>,
    pkt: Vec<u8>,
) -> (accepted: bool)
    requires
        packets_joined(*tx, *old(rx)),
    ensures
        packets_joined(*tx, *final(rx)),
        packets_limit(*final(rx)) == packets_limit(*old(rx)),
        accepted == (packets_queued(*old(rx)).len() < packets_limit(*old(rx))),
        accepted ==> packets_queued(*final(rx)) == packets_queued(*old(rx)).push(pkt@),
        !accepted ==> packets_queued(*final(rx)) == packets_queued(*old(rx)),
{
    tx.try_send(pkt).is_ok()
}

/// `Receiver::try_recv`: takes the oldest waiting packet, or gives nothing
/// where none waits.
#[verifier::external_body]
pub(crate) fn packet_try_recv(tx: &Sender<Vec<u8>>, rx: &mut Receiver<Vec<u8>>) -> (got: Option<
    Vec<u8>,
>)
    requires
        packets_joined(*tx, *old(rx)),
    ensures
        packets_joined(*tx, *final(rx)),
        packets_limit(*final(rx)) == packets_limit(*old(rx)),
        packets_queued(*old(rx)).len() == 0 ==> got is None && packets_queued(*final(rx))
            == packets_queued(*old(rx)),
        packets_queued(*old(rx)).len() > 0 ==> got is Some && got->0@ == packets_queued(
            *old(rx),
        ).first() && packets_queued(*final(rx)) == packets_queued(*old(rx)).drop_first(),
{
    rx.try_recv().ok()
}

/// One received datagram: its payload, where it came from and where it was
/// going.
pub type Datagram = (Vec<u8>, SocketAddr, SocketAddr);

/// A datagram as a value: the payload's bytes and the two addresses.
pub type DatagramView = (Seq<u8>, SocketAddr, SocketAddr);

/// The value of a datagram.
pub open spec fn datagram_view(d: Datagram) -> DatagramView {
    (d.0@, d.1, d.2)
}

/// The datagrams waiting in a datagram channel, oldest first.
pub uninterp spec fn datagrams_queued(rx: Receiver<Datagram>) -> Seq<DatagramView>;

/// The buffer size a datagram channel was made with.
pub uninterp spec fn datagrams_limit(rx: Receiver<Datagram>) -> nat;

/// Whether the two are the ends of one datagram channel.
pub uninterp spec fn datagrams_joined(tx: Sender<Datagram>, rx: Receiver<Datagram>) -> bool;

/// `tokio::sync::mpsc::channel`: a new, empty channel that holds at most
/// `buffer` messages. It panics on a buffer of 0 and on one over
/// `MAX_BUFFER`.
#[verifier::external_body]
pub(crate) fn datagram_channel(buffer: usize) -> (ends: (Sender<Datagram>, Receiver<Datagram>))
    requires
        0 < buffer <= MAX_BUFFER,
    ensures
        datagrams_joined(ends.0, ends.1),
        datagrams_queued(ends.1) == Seq::<DatagramView>::empty(),
        datagrams_limit(ends.1) == buffer,
{
    tokio::sync::mpsc::channel(buffer)
}

/// `Sender::try_send`: appends the datagram where fewer than the limit are
/// waiting, and refuses it otherwise, without waiting either way. The
/// receiver is named because the queue it reads is what changes.
#[verifier::external_body]
pub(crate) fn datagram_try_send(
    tx: &Sender<Datagram>,
    rx: &mut Receiver<Datagram>,
    datagram: Datagram,
) -> (accepted: bool)
    requires
        datagrams_joined(*tx, *old(rx)),
    ensures
        datagrams_joined(*tx, *final(rx)),
        datagrams_limit(*final(rx)) == datagrams_limit(*old(rx)),
        accepted == (datagrams_queued(*old(rx)).len() < datagrams_limit(*old(rx))),
        accepted ==> datagrams_queued(*final(rx)) == datagrams_queued(*old(rx)).push(
            datagram_view(datagram),
        ),
        !accepted ==> datagrams_queued(*final(rx)) == datagrams_queued(*old(rx)),
{
    tx.try_send(datagram).is_ok()
}

/// `Receiver::try_recv`: takes the oldest waiting datagram, or gives nothing
/// where none waits.
#[verifier::external_body]
pub(crate) fn datagram_try_recv(tx: &Sender<Datagram>, rx: &mut Receiver<Datagram>) -> (got:
    Option<Datagram>)
    requires
        datagrams_joined(*tx, *old(rx)),
    ensures
        datagrams_joined(*tx, *final(rx)),
        datagrams_limit(*final(rx)) == datagrams_limit(*old(rx)),
        datagrams_queued(*old(rx)).len() == 0 ==> got is None && datagrams_queued(*final(rx))
            == datagrams_queued(*old(rx)),
        datagrams_queued(*old(rx)).len() > 0 ==> got is Some && datagram_view(got->0)
            == datagrams_queued(*old(rx)).first() && datagrams_queued(*final(rx))
            == datagrams_queued(*old(rx)).drop_first(),
{
    rx.try_recv().ok()
}

/// `tokio::sync::mpsc::UnboundedSender`, carried through without a look
/// inside.
#[verifier::external_type_specification]
#[verifier::external_body]
#[verifier::reject_recursive_types(T)]
pub struct ExUnboundedSender<T>(UnboundedSender<T>);

/// `tokio::sync::mpsc::UnboundedReceiver`, carried through without a look
/// inside.
#[verifier::external_type_specification]
#[verifier::external_body]
#[verifier::reject_recursive_types(T)]
pub struct ExUnboundedReceiver<T>(UnboundedReceiver<T>);

/// How many messages an unbounded channel can count before tokio aborts the
/// process.
pub const MAX_PENDING: usize = usize::MAX / 2;

/// The accepted connections waiting in an accept channel, oldest first.
pub uninterp spec fn accepts_queued(rx: UnboundedReceiver<Accepted>) -> Seq<Accepted>;

/// Whether the two are the ends of one accept channel.
pub uninterp spec fn accepts_joined(
    tx: UnboundedSender<Accepted>,
    rx: UnboundedReceiver<Accepted>,
) -> bool;

/// `tokio::sync::mpsc::unbounded_channel`: a new, empty channel without a
/// limit.
#[verifier::external_body]
pub(crate) fn accept_channel() -> (ends: (UnboundedSender<Accepted>, UnboundedReceiver<Accepted>))
    ensures
        accepts_joined(ends.0, ends.1),
        accepts_queued(ends.1) == Seq::<Accepted>::empty(),
{
    tokio::sync::mpsc::unbounded_channel()
}

/// `UnboundedSender::send`: appends the message. With `MAX_PENDING`
/// messages waiting tokio aborts the process, so fewer must wait. The
/// receiver is named because the queue it reads is what changes.
#[verifier::external_body]
pub(crate) fn accept_send(
    tx: &UnboundedSender<Accepted>,
    rx: &mut UnboundedReceiver<Accepted>,
    item: Accepted,
)
    requires
        accepts_joined(*tx, *old(rx)),
        accepts_queued(*old(rx)).len() < MAX_PENDING,
    ensures
        accepts_joined(*tx, *final(rx)),
        accepts_queued(*final(rx)) == accepts_queued(*old(rx)).push(item),
{
    let _ = tx.send(item);
}

/// `UnboundedReceiver::try_recv`: takes the oldest waiting message, or gives
/// nothing where none waits.
#[verifier::external_body]
pub(crate) fn accept_try_recv(
    tx: &UnboundedSender<Accepted>,
    rx: &mut UnboundedReceiver<Accepted>,
) -> (got: Option<Accepted>)
    requires
        accepts_joined(*tx, *old(rx)),
    ensures
        accepts_joined(*tx, *final(rx)),
        accepts_queued(*old(rx)).len() == 0 ==> got is None && accepts_queued(*final(rx))
            == accepts_queued(*old(rx)),
        accepts_queued(*old(rx)).len() > 0 ==> got == Some(accepts_queued(*old(rx)).first())
            && accepts_queued(*final(rx)) == accepts_queued(*old(rx)).drop_first(),
{
    rx.try_recv().ok()
}

} // verus!
