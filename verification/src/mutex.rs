//! The Stack Lock discipline.
//!
//! One process-wide lock serialises every entry into the stack. The lock
//! itself belongs to the driver; what this module fixes is the rule that the
//! adapter's procedures obey when they ask for it, and a monitor that holds a
//! sequence of calls to that rule.

use crate::lwip::{StackCall, Step};
use vstd::prelude::*;

verus! {

/// Whether a call may be made by one who holds (`held`) or does not hold the
/// Stack Lock: the lock is not acquired twice, released only by its holder,
/// never held across a sleep, and held for everything that enters the stack.
pub open spec fn permitted(held: bool, call: StackCall) -> bool {
    match call {
        StackCall::Lock => !held,
        StackCall::Unlock => held,
        StackCall::Sleep { .. } => !held,
        StackCall::SpawnTimerPump => true,
        _ => held,
    }
}

/// Whether the lock is held once a call has been made.
pub open spec fn held_after(held: bool, call: StackCall) -> bool {
    match call {
        StackCall::Lock => true,
        StackCall::Unlock => false,
        _ => held,
    }
}

/// Whether one turn of a procedure obeys the discipline: a call is permitted
/// and moves the lock as `held_after` says, and a procedure ends without the
/// lock.
pub open spec fn step_obeys<T>(before: bool, step: Step<T>, after: bool) -> bool {
    match step {
        Step::Call(call) => permitted(before, call) && after == held_after(before, call),
        Step::Done(_) => !before && !after,
    }
}

/// Whether the lock is held after a sequence of calls.
pub open spec fn held_at_end(held: bool, trace: Seq<StackCall>) -> bool
    decreases trace.len(),
{
    if trace.len() == 0 {
        held
    } else {
        held_after(held_at_end(held, trace.drop_last()), trace.last())
    }
}

/// Whether every call of a sequence is permitted where it stands.
pub open spec fn disciplined(held: bool, trace: Seq<StackCall>) -> bool
    decreases trace.len(),
{
    trace.len() == 0 || (disciplined(held, trace.drop_last()) && permitted(
        held_at_end(held, trace.drop_last()),
        trace.last(),
    ))
}

/// In a disciplined sequence every call that enters the stack is made with
/// the lock held.
pub proof fn lemma_stack_entered_under_lock(held: bool, trace: Seq<StackCall>, i: int)
    requires
        disciplined(held, trace),
        0 <= i < trace.len(),
        trace[i].touches_stack(),
    ensures
        held_at_end(held, trace.take(i)),
    decreases trace.len(),
{
    if i == trace.len() - 1 {
        assert(trace.take(i) =~= trace.drop_last());
    } else {
        lemma_stack_entered_under_lock(held, trace.drop_last(), i);
        assert(trace.drop_last().take(i) =~= trace.take(i));
    }
}

/// Watches the calls a driver is about to perform and tells whether each is
/// permitted.
#[derive(Clone, Copy, Debug, PartialEq, Eq)]
pub struct LockMonitor {
    held: bool,
    sound: bool,
}

impl LockMonitor {
    /// Whether the watched calls leave the lock held.
    pub closed spec fn spec_is_held(&self) -> bool {
        self.held
    }

    /// Whether every call watched so far was permitted.
    pub closed spec fn spec_is_sound(&self) -> bool {
        self.sound
    }

    /// A monitor that has seen nothing: the lock is free.
    pub fn new() -> (m: Self)
        ensures
            !m.is_held(),
            m.is_sound(),
    {
        LockMonitor { held: false, sound: true }
    }

    /// Whether the watched calls leave the lock held.
    #[verifier::when_used_as_spec(spec_is_held)]
    pub fn is_held(&self) -> (held: bool)
        ensures
            held == self.spec_is_held(),
    {
        self.held
    }

    /// Whether every call watched so far was permitted.
    #[verifier::when_used_as_spec(spec_is_sound)]
    pub fn is_sound(&self) -> (sound: bool)
        ensures
            sound == self.spec_is_sound(),
    {
        self.sound
    }

    /// Records one call and tells whether it is permitted where it stands.
    pub fn observe(&mut self, call: &StackCall) -> (ok: bool)
        ensures
            ok == permitted(old(self).is_held(), *call),
            final(self).is_held() == held_after(old(self).is_held(), *call),
            final(self).is_sound() == (old(self).is_sound() && ok),
    {
        let ok = match call {
            StackCall::Lock => !self.held,
            StackCall::Unlock => self.held,
            StackCall::Sleep { .. } => !self.held,
            StackCall::SpawnTimerPump => true,
            _ => self.held,
        };
        match call {
            StackCall::Lock => {
                self.held = true;
            },
            StackCall::Unlock => {
                self.held = false;
            },
            _ => {},
        }
        self.sound = self.sound && ok;
        ok
    }

    /// Records a sequence of calls; the monitor stays sound exactly if the
    /// sequence is disciplined from where the monitor stood.
    pub fn observe_all(&mut self, calls: &Vec<StackCall>) -> (ok: bool)
        ensures
            ok == disciplined(old(self).is_held(), calls@),
            final(self).is_held() == held_at_end(old(self).is_held(), calls@),
            final(self).is_sound() == (old(self).is_sound() && ok),
    {
        let mut ok = true;
        let mut i: usize = 0;
        while i < calls.len()
            invariant
                i <= calls.len(),
                ok == disciplined(old(self).is_held(), calls@.take(i as int)),
                self.is_held() == held_at_end(old(self).is_held(), calls@.take(i as int)),
                self.is_sound() == (old(self).is_sound() && ok),
            decreases calls.len() - i,
        {
            proof {
                assert(calls@.take(i + 1).drop_last() =~= calls@.take(i as int));
            }
            let one = self.observe(&calls[i]);
            ok = ok && one;
            i = i + 1;
        }
        proof {
            assert(calls@.take(i as int) =~= calls@);
        }
        ok
    }
}

} // verus!
