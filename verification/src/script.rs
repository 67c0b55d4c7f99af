//! Procedures whose calls do not depend on the stack's answers.
//!
//! A [`Script`] is a fixed sequence of calls handed out one per turn. It can
//! only be built call by call under the Stack Lock discipline, so every
//! script a driver ever sees is disciplined and ends with the lock released.

use crate::lwip::{StackCall, StackReply, Step};
use crate::mutex::{disciplined, held_after, held_at_end, permitted, step_obeys};
use vstd::prelude::*;

verus! {

/// A fixed sequence of calls and how many of them have been handed out.
pub struct Script {
    calls: Vec<StackCall>,
    at: usize,
    held: bool,
}

impl Script {
    /// The script is disciplined from a free lock and leaves the lock free,
    /// `held` tells whether the calls handed out so far leave the lock held,
    /// and the position is within the script.
    pub closed spec fn wf(&self) -> bool {
        &&& self.at <= self.calls@.len()
        &&& disciplined(false, self.calls@)
        &&& !held_at_end(false, self.calls@)
        &&& self.held == held_at_end(false, self.calls@.take(self.at as int))
    }

    /// A script still being written: disciplined so far, nothing handed out.
    pub closed spec fn drafted(&self) -> bool {
        &&& self.at == 0
        &&& !self.held
        &&& disciplined(false, self.calls@)
    }

    /// All calls of the script, in order.
    pub closed spec fn calls(&self) -> Seq<StackCall> {
        self.calls@
    }

    /// How many calls have been handed out.
    pub closed spec fn position(&self) -> nat {
        self.at as nat
    }

    /// Whether the calls handed out so far leave the lock held.
    pub closed spec fn holds_lock(&self) -> bool {
        self.held
    }

    /// What `wf` says, for those outside this module.
    pub proof fn lemma_wf(&self)
        requires
            self.wf(),
        ensures
            self.position() <= self.calls().len(),
            disciplined(false, self.calls()),
            !held_at_end(false, self.calls()),
            self.holds_lock() == held_at_end(false, self.calls().take(self.position() as int)),
    {
    }

    /// The empty script.
    pub(crate) fn new() -> (script: Self)
        ensures
            script.drafted(),
            script.wf(),
            script.calls() == Seq::<StackCall>::empty(),
            script.position() == 0,
    {
        let script = Script { calls: Vec::new(), at: 0, held: false };
        assert(script.calls@.take(0) =~= script.calls@);
        script
    }

    /// Appends a call to a script being written. The call must be permitted
    /// where it stands. Once the lock is free again the script is complete.
    pub(crate) fn followed_by(self, call: StackCall) -> (script: Self)
        requires
            self.drafted(),
            permitted(held_at_end(false, self.calls()), call),
        ensures
            script.drafted(),
            !held_at_end(false, script.calls()) ==> script.wf(),
            script.position() == 0,
            script.calls() == self.calls().push(call),
            held_at_end(false, script.calls()) == held_after(
                held_at_end(false, self.calls()),
                call,
            ),
    {
        let mut calls = self.calls;
        let ghost before = calls@;
        calls.push(call);
        proof {
            assert(calls@.drop_last() =~= before);
            assert(calls@.take(0) =~= before.take(0));
        }
        Script { calls, at: 0, held: false }
    }

    /// Hands out the next call of the script, or ends. The answers are not
    /// looked at.
    pub fn step(&mut self, reply: StackReply) -> (next: Step<()>)
        requires
            old(self).wf(),
        ensures
            final(self).wf(),
            final(self).calls() == old(self).calls(),
            old(self).position() < old(self).calls().len() ==> {
                &&& next == Step::<()>::Call(old(self).calls()[old(self).position() as int])
                &&& final(self).position() == old(self).position() + 1
            },
            old(self).position() >= old(self).calls().len() ==> {
                &&& next == Step::Done(())
                &&& final(self).position() == old(self).position()
            },
            step_obeys(old(self).holds_lock(), next, final(self).holds_lock()),
    {
        if self.at < self.calls.len() {
            let call = self.calls[self.at];
            proof {
                let after = self.calls@.take(self.at + 1);
                assert(after.drop_last() =~= self.calls@.take(self.at as int));
                assert(after.last() == call);
                lemma_disciplined_prefix(false, self.calls@, self.at + 1);
            }
            self.held = match call {
                StackCall::Lock => true,
                StackCall::Unlock => false,
                _ => self.held,
            };
            self.at = self.at + 1;
            Step::Call(call)
        } else {
            proof {
                assert(self.calls@.take(self.at as int) =~= self.calls@);
            }
            Step::Done(())
        }
    }
}

/// Every prefix of a disciplined sequence is disciplined.
pub proof fn lemma_disciplined_prefix(held: bool, trace: Seq<StackCall>, n: int)
    requires
        disciplined(held, trace),
        0 <= n <= trace.len(),
    ensures
        disciplined(held, trace.take(n)),
    decreases trace.len(),
{
    if n == trace.len() {
        assert(trace.take(n) =~= trace);
    } else {
        lemma_disciplined_prefix(held, trace.drop_last(), n);
        assert(trace.drop_last().take(n) =~= trace.take(n));
    }
}

} // verus!
