//! The embedded stack as the adapter sees it.
//!
//! The adapter never enters the stack itself. It decides which stack entry
//! points are to be called, in which order and with which arguments, and a
//! driver outside this crate performs them and hands each answer back. This
//! module holds the vocabulary of that exchange: the stack's numeric codes,
//! its native address form, the calls ([`StackCall`]), their answers
//! ([`StackReply`]) and one turn of a procedure ([`Step`]).

use vstd::prelude::*;

verus! {

/// No error.
pub const ERR_OK: i8 = 0;

/// Out of memory.
pub const ERR_MEM: i8 = -1;

/// Not connected.
pub const ERR_CONN: i8 = -11;

/// Connection aborted.
pub const ERR_ABRT: i8 = -13;

/// Connection closed.
pub const ERR_CLSD: i8 = -15;

/// Illegal argument.
pub const ERR_ARG: i8 = -16;

/// The backlog a listening PCB is opened with.
pub const TCP_DEFAULT_LISTEN_BACKLOG: u8 = 0xff;

/// Family tag of an IPv4 address.
pub const IPADDR_TYPE_V4: u8 = 0;

/// Family tag of an IPv6 address.
pub const IPADDR_TYPE_V6: u8 = 6;

/// Family tag of a dual-stack address.
pub const IPADDR_TYPE_ANY: u8 = 46;

/// The MTU the adapter sets on the stack's interface.
pub const NETIF_MTU: u16 = 1500;

/// The longest buffer a single pbuf, write or acknowledgment can describe.
pub const MAX_CHUNK: usize = 0xffff;

/// The null handle: no PCB, no pbuf, no owner.
pub const NULL: usize = 0;

/// An address in the stack's native form: four 32-bit words that hold the
/// address bytes in memory order, a zone and a family tag. An IPv4 address
/// occupies the first word.
#[derive(Clone, Copy, Debug, PartialEq, Eq)]
pub struct IpAddrT {
    pub addr: [u32; 4],
    pub zone: u8,
    pub type_: u8,
}

impl IpAddrT {
    /// The four address words as a sequence.
    pub open spec fn words(&self) -> Seq<u32> {
        self.addr@
    }
}

/// The stack's "any" address: all words zero, no zone, the dual-stack tag.
pub open spec fn spec_ip_addr_any_type() -> IpAddrT {
    IpAddrT { addr: [0u32, 0u32, 0u32, 0u32], zone: 0, type_: IPADDR_TYPE_ANY }
}

/// The stack's "any" address.
#[verifier::when_used_as_spec(spec_ip_addr_any_type)]
pub fn ip_addr_any_type() -> (any: IpAddrT)
    ensures
        any == spec_ip_addr_any_type(),
{
    let any = IpAddrT { addr: [0, 0, 0, 0], zone: 0, type_: IPADDR_TYPE_ANY };
    assert(any.addr@ =~= spec_ip_addr_any_type().addr@);
    any
}

/// One request to the driver. All but `Lock`, `Unlock`, `Sleep` and
/// `SpawnTimerPump` enter the stack or touch state that the stack's callbacks
/// read. Handles are the stack's addresses kept as integers; byte payloads
/// stay with whoever offered them and are named here by their length.
#[derive(Clone, Copy, Debug, PartialEq, Eq)]
pub enum StackCall {
    /// Acquire the Stack Lock, waiting for it.
    Lock,
    /// Release the Stack Lock.
    Unlock,
    /// Suspend for this many milliseconds.
    Sleep { millis: u64 },
    /// Start the background task that runs the timer pump.
    SpawnTimerPump,
    /// Initialise the stack; the driver does so once per process.
    Init,
    /// Install the IPv4 and IPv6 output hooks on the interface.
    NetifSetOutput,
    /// Set the interface's MTU.
    NetifSetMtu { mtu: u16 },
    /// Point the output anchor at the adapter with this key.
    AnchorSet { owner: usize },
    /// Clear the output anchor.
    AnchorClear,
    /// Run the stack's timers.
    CheckTimeouts,
    /// Allocate a pbuf of `len` bytes.
    PbufAlloc { len: u16 },
    /// Allocate a pbuf that refers to the caller's `len` bytes.
    PbufAllocReference { len: u16 },
    /// Copy the first `len` bytes of the staged packet into the pbuf.
    PbufTake { pbuf: usize, len: u16 },
    /// Release a pbuf.
    PbufFree { pbuf: usize },
    /// Hand a pbuf to the interface's input entry point.
    NetifInput { pbuf: usize },
    /// Create a TCP PCB.
    TcpNew,
    /// Bind a TCP PCB.
    TcpBind { pcb: usize, addr: IpAddrT, port: u16 },
    /// Put a TCP PCB in listen state.
    TcpListen { pcb: usize, backlog: u8 },
    /// Set a TCP PCB's user-data slot.
    TcpArg { pcb: usize, arg: usize },
    /// Register (`on`) or unregister the accept callback.
    TcpAccept { pcb: usize, on: bool },
    /// Register or unregister the receive callback.
    TcpRecv { pcb: usize, on: bool },
    /// Register or unregister the sent callback.
    TcpSent { pcb: usize, on: bool },
    /// Register or unregister the error callback.
    TcpErr { pcb: usize, on: bool },
    /// Ask how many bytes the send buffer can take.
    TcpSndbuf { pcb: usize },
    /// Enqueue the first `len` bytes of the offered buffer.
    TcpWrite { pcb: usize, len: u16 },
    /// Ask the stack to transmit what is enqueued.
    TcpOutput { pcb: usize },
    /// Acknowledge `len` received bytes, opening the receive window.
    TcpRecved { pcb: usize, len: u16 },
    /// Half-close the sending direction.
    TcpShutdownTx { pcb: usize },
    /// Close a TCP PCB.
    TcpClose { pcb: usize },
    /// Abort a TCP PCB.
    TcpAbort { pcb: usize },
    /// Create a UDP PCB.
    UdpNew,
    /// Bind a UDP PCB.
    UdpBind { pcb: usize, addr: IpAddrT, port: u16 },
    /// Register the receive callback with this user-data, or unregister it
    /// where `arg` is null.
    UdpRecv { pcb: usize, arg: usize },
    /// Send the pbuf from `src` to `dst`.
    UdpSendto { pcb: usize, pbuf: usize, dst: IpAddrT, dst_port: u16, src: IpAddrT, src_port: u16 },
    /// Remove a UDP PCB.
    UdpRemove { pcb: usize },
}

impl StackCall {
    /// Whether the call enters the stack or touches state its callbacks read.
    pub open spec fn spec_touches_stack(&self) -> bool {
        !(*self is Lock || *self is Unlock || *self is Sleep || *self is SpawnTimerPump)
    }

    /// Whether the call enters the stack or touches state its callbacks read.
    #[verifier::when_used_as_spec(spec_touches_stack)]
    pub fn touches_stack(&self) -> (touches: bool)
        ensures
            touches == self.spec_touches_stack(),
    {
        match self {
            StackCall::Lock => false,
            StackCall::Unlock => false,
            StackCall::Sleep { .. } => false,
            StackCall::SpawnTimerPump => false,
            _ => true,
        }
    }
}

/// The driver's answer to one call.
#[derive(Clone, Copy, Debug, PartialEq, Eq)]
pub enum StackReply {
    /// The call returns nothing.
    Unit,
    /// A PCB or pbuf, null where the stack had none to give.
    Handle(usize),
    /// The stack's numeric result.
    Status(i8),
    /// The answer to `TcpListen`: the listening PCB, or null and the reason.
    Listen { pcb: usize, reason: i8 },
    /// The answer to `NetifInput` where the interface has no input entry point.
    InputMissing,
    /// A byte count.
    Size(u16),
}

impl StackReply {
    /// The handle an answer carries; an answer of another kind reads as null.
    pub open spec fn spec_handle(&self) -> usize {
        match *self {
            StackReply::Handle(h) => h,
            StackReply::Listen { pcb, .. } => pcb,
            _ => NULL,
        }
    }

    /// The handle an answer carries; an answer of another kind reads as null.
    #[verifier::when_used_as_spec(spec_handle)]
    pub fn handle(&self) -> (h: usize)
        ensures
            h == self.spec_handle(),
    {
        match *self {
            StackReply::Handle(h) => h,
            StackReply::Listen { pcb, .. } => pcb,
            _ => NULL,
        }
    }

    /// The numeric result an answer carries; an answer of another kind reads
    /// as an illegal argument.
    pub open spec fn spec_status(&self) -> i8 {
        match *self {
            StackReply::Status(e) => e,
            StackReply::Listen { reason, .. } => reason,
            _ => ERR_ARG,
        }
    }

    /// The numeric result an answer carries; an answer of another kind reads
    /// as an illegal argument.
    #[verifier::when_used_as_spec(spec_status)]
    pub fn status(&self) -> (e: i8)
        ensures
            e == self.spec_status(),
    {
        match *self {
            StackReply::Status(e) => e,
            StackReply::Listen { reason, .. } => reason,
            _ => ERR_ARG,
        }
    }

    /// The byte count an answer carries; an answer of another kind reads as 0.
    pub open spec fn spec_size(&self) -> u16 {
        match *self {
            StackReply::Size(n) => n,
            _ => 0,
        }
    }

    /// The byte count an answer carries; an answer of another kind reads as 0.
    #[verifier::when_used_as_spec(spec_size)]
    pub fn size(&self) -> (n: u16)
        ensures
            n == self.spec_size(),
    {
        match *self {
            StackReply::Size(n) => n,
            _ => 0,
        }
    }
}

/// One turn of a procedure: a call for the driver to perform, whose answer
/// is handed to the next turn, or the procedure's result.
#[derive(Clone, Copy, Debug, PartialEq, Eq)]
pub enum Step<T> {
    Call(StackCall),
    Done(T),
}

} // verus!
