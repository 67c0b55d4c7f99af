//! The output hooks: what happens to a packet that the stack emits on the
//! interface.

use crate::lwip::{ERR_ABRT, ERR_OK};
use crate::stack::NetStack;
use crate::stack_impl::{egress_after, NetStackView};
use vstd::prelude::*;

verus! {

/// What an output hook tells its caller.
#[derive(Clone, Copy, Debug, PartialEq, Eq, Structural)]
pub struct OutputVerdict {
    /// The hook's result for the stack.
    pub ret: i8,
    /// Whether the egress reader is to be woken.
    pub wake: bool,
}

/// The behaviour both hooks share. `stack` is the adapter that the output
/// anchor names. With no adapter anchored the packet is dropped and the
/// stack is told that the output was aborted; otherwise the packet is
/// handed to the adapter, which queues or drops it, and the stack is told
/// that all went well.
pub fn output(stack: Option<&mut NetStack>, pkt: Vec<u8>) -> (verdict: OutputVerdict)
    requires
        stack matches Some(s) ==> s.wf(),
    ensures
        match stack {
            None => verdict == (OutputVerdict { ret: ERR_ABRT, wake: false }),
            Some(s) => {
                &&& final(s).wf()
                &&& verdict == (OutputVerdict { ret: ERR_OK, wake: s@.reader_parked })
                &&& final(s)@ == (NetStackView {
                    egress: egress_after(s@.egress, s@.limit, pkt@),
                    ..s@
                })
            },
        },
{
    match stack {
        None => OutputVerdict { ret: ERR_ABRT, wake: false },
        Some(s) => {
            let wake = s.output(pkt);
            OutputVerdict { ret: ERR_OK, wake }
        },
    }
}

/// The IPv4 output hook.
pub fn output_ip4(stack: Option<&mut NetStack>, pkt: Vec<u8>) -> (verdict: OutputVerdict)
    requires
        stack matches Some(s) ==> s.wf(),
    ensures
        match stack {
            None => verdict == (OutputVerdict { ret: ERR_ABRT, wake: false }),
            Some(s) => {
                &&& final(s).wf()
                &&& verdict == (OutputVerdict { ret: ERR_OK, wake: s@.reader_parked })
                &&& final(s)@ == (NetStackView {
                    egress: egress_after(s@.egress, s@.limit, pkt@),
                    ..s@
                })
            },
        },
{
    output(stack, pkt)
}

/// The IPv6 output hook.
pub fn output_ip6(stack: Option<&mut NetStack>, pkt: Vec<u8>) -> (verdict: OutputVerdict)
    requires
        stack matches Some(s) ==> s.wf(),
    ensures
        match stack {
            None => verdict == (OutputVerdict { ret: ERR_ABRT, wake: false }),
            Some(s) => {
                &&& final(s).wf()
                &&& verdict == (OutputVerdict { ret: ERR_OK, wake: s@.reader_parked })
                &&& final(s)@ == (NetStackView {
                    egress: egress_after(s@.egress, s@.limit, pkt@),
                    ..s@
                })
            },
        },
{
    output(stack, pkt)
}

} // verus!
