//! The update loop's contract: after each bounded wait on the readiness
//! event the loop decides — deliver a fresh snapshot, wait again, or stop —
//! and a snapshot is an owned copy of the mapped view's bytes, independent
//! of the live shared memory.

use crate::sdk::SdkError;
use vstd::prelude::*;

verus! {

/// What one bounded wait on the readiness event produced.
#[derive(Clone, Copy, Debug, PartialEq, Eq, Structural)]
pub enum WaitOutcome {
    /// The producer signaled: a new snapshot is ready in the view.
    Signaled,
    /// The bounded timeout expired without a signal.
    TimedOut,
    /// The wait itself failed, with the raw OS status.
    Failed(u32),
}

/// What the update loop must do after one wait.
#[derive(Clone, Copy, Debug, PartialEq, Eq, Structural)]
pub enum LoopAction {
    /// Copy the mapped view into a fresh owned buffer and hand it to the
    /// consumer.
    Deliver,
    /// Wait again.
    Continue,
    /// Stop cleanly: the owning client requested shutdown.
    Stop,
    /// Stop and surface the error: the wait failed.
    Fail(SdkError),
}

/// The decision for one wait outcome. A shutdown request always stops the
/// loop, so closing the client never blocks on the producer; otherwise a
/// signal is answered by exactly one delivery, a timeout by waiting again,
/// and a wait failure stops the loop with `Unexpected`, never spinning.
pub open spec fn spec_loop_action(w: WaitOutcome, shutdown: bool) -> LoopAction {
    if shutdown {
        LoopAction::Stop
    } else {
        match w {
            WaitOutcome::Signaled => LoopAction::Deliver,
            WaitOutcome::TimedOut => LoopAction::Continue,
            WaitOutcome::Failed(c) => LoopAction::Fail(SdkError::Unexpected(c)),
        }
    }
}

/// Decide what the update loop does after one wait, given the wait's
/// outcome and whether the owning client has requested shutdown.
pub fn loop_action(w: WaitOutcome, shutdown: bool) -> (a: LoopAction)
    ensures
        a == spec_loop_action(w, shutdown),
{
    if shutdown {
        LoopAction::Stop
    } else {
        match w {
            WaitOutcome::Signaled => LoopAction::Deliver,
            WaitOutcome::TimedOut => LoopAction::Continue,
            WaitOutcome::Failed(c) => LoopAction::Fail(SdkError::Unexpected(c)),
        }
    }
}

/// Delivery law: while no shutdown is requested, the loop delivers a
/// buffer exactly when it observed a signal — never two deliveries for one
/// signal, never a skipped delivery for an observed one.
pub proof fn lemma_delivery_iff_signal(w: WaitOutcome)
    ensures
        spec_loop_action(w, false) == LoopAction::Deliver <==> w == WaitOutcome::Signaled,
{
}

/// Copy the mapped view's current bytes into an owned snapshot buffer of
/// the same length and contents. The buffer is independent of the live
/// view: the producer's next write cannot change it.
pub fn take_snapshot(view: &[u8]) -> (r: Vec<u8>)
    ensures
        r@ == view@,
{
    let mut buf: Vec<u8> = Vec::new();
    let mut i: usize = 0;
    while i < view.len()
        invariant
            i <= view@.len(),
            buf@ == view@.subrange(0, i as int),
        decreases view@.len() - i,
    {
        let b: u8 = view[i];
        buf.push(b);
        proof {
            assert(buf@ =~= view@.subrange(0, i as int + 1));
        }
        i = i + 1;
    }
    proof {
        assert(buf@ =~= view@);
    }
    buf
}

} // verus!
