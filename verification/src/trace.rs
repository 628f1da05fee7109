use vstd::prelude::*;

use crate::ops::{FlashOp, Phase};
use crate::status::{spec_in_progress, spec_status};
use crate::control::spec_is_locked;

verus! {

/// The states that an operation goes through when the register accesses it asks
/// for return `inputs` in turn: the first state, then one state per input.
pub open spec fn trace(op: FlashOp, inputs: Seq<u32>) -> Seq<FlashOp>
    decreases inputs.len(),
{
    if inputs.len() == 0 {
        seq![op]
    } else {
        seq![op] + trace(op.after(inputs[0]), inputs.drop_first())
    }
}

/// The procedure a phase belongs to: page erase, unlock, program, end-of-operation
/// wait, or none once finished.
pub open spec fn procedure(p: Phase) -> int {
    match p {
        Phase::EraseIdleWait | Phase::EraseClearRead | Phase::EraseClearWrite
        | Phase::EraseUnlockWait | Phase::EraseUnlockCheck | Phase::EraseKey1 | Phase::EraseKey2
        | Phase::EraseStart | Phase::EraseReadyWait | Phase::EraseReadySample
        | Phase::EraseClearPerRead | Phase::EraseClearPerWrite | Phase::EraseLockRead
        | Phase::EraseLockWrite | Phase::EraseFinalWait => 0,
        Phase::UnlockWait | Phase::UnlockCheck | Phase::UnlockKey1 | Phase::UnlockKey2 => 1,
        Phase::Program(_) | Phase::WriteReadyWait | Phase::WriteReadySample => 2,
        Phase::ReadyWait | Phase::ReadySample => 3,
        Phase::Finished => 4,
    }
}

/// Position of a phase in the order in which its procedure goes through it.
pub open spec fn rank(p: Phase) -> int {
    match p {
        Phase::EraseIdleWait => 0,
        Phase::EraseClearRead => 1,
        Phase::EraseClearWrite => 2,
        Phase::EraseUnlockWait => 3,
        Phase::EraseUnlockCheck => 4,
        Phase::EraseKey1 => 5,
        Phase::EraseKey2 => 6,
        Phase::EraseStart => 7,
        Phase::EraseReadyWait => 8,
        Phase::EraseReadySample => 9,
        Phase::EraseClearPerRead => 10,
        Phase::EraseClearPerWrite => 11,
        Phase::EraseLockRead => 12,
        Phase::EraseLockWrite => 13,
        Phase::EraseFinalWait => 14,
        Phase::UnlockWait => 20,
        Phase::UnlockCheck => 21,
        Phase::UnlockKey1 => 22,
        Phase::UnlockKey2 => 23,
        Phase::Program(i) => 30 + i,
        Phase::WriteReadyWait => 35,
        Phase::WriteReadySample => 36,
        Phase::ReadyWait => 50,
        Phase::ReadySample => 51,
        Phase::Finished => 100,
    }
}

/// The phases that every run of their procedure passes through before it ends.
pub open spec fn milestone(p: Phase) -> bool {
    match p {
        Phase::EraseIdleWait | Phase::EraseClearRead | Phase::EraseClearWrite
        | Phase::EraseUnlockWait | Phase::EraseUnlockCheck | Phase::EraseStart
        | Phase::EraseReadyWait | Phase::EraseReadySample | Phase::EraseClearPerRead
        | Phase::EraseClearPerWrite | Phase::EraseLockRead | Phase::EraseLockWrite
        | Phase::EraseFinalWait | Phase::UnlockWait | Phase::UnlockCheck
        | Phase::WriteReadyWait | Phase::WriteReadySample | Phase::ReadyWait
        | Phase::ReadySample => true,
        _ => false,
    }
}

/// The phases after the deciding status read, in which the outcome is fixed.
pub open spec fn outcome_fixed(p: Phase) -> bool {
    match p {
        Phase::EraseClearPerRead | Phase::EraseClearPerWrite | Phase::EraseLockRead
        | Phase::EraseLockWrite | Phase::EraseFinalWait | Phase::Finished => true,
        _ => false,
    }
}

/// The phases whose status read decides the outcome.
pub open spec fn sample(p: Phase) -> bool {
    p == Phase::EraseReadySample || p == Phase::WriteReadySample || p == Phase::ReadySample
}

/// One step keeps the state well formed, never moves back, stays in its procedure
/// unless it finishes, and changes nothing but the phase, the last value read and
/// (at the deciding status read) the outcome.
pub proof fn lemma_step(s: FlashOp, x: u32)
    requires
        s.wf(),
    ensures
        s.after(x).wf(),
        rank(s.after(x).phase) >= rank(s.phase),
        s.after(x).phase == s.phase || rank(s.after(x).phase) > rank(s.phase),
        s.after(x).phase == Phase::Finished || procedure(s.after(x).phase) == procedure(s.phase),
        s.phase == Phase::Finished ==> s.after(x) == s,
        s.after(x).family == s.family,
        s.after(x).target == s.target,
        s.after(x).data == s.data,
        !sample(s.phase) ==> s.after(x).outcome == s.outcome,
        outcome_fixed(s.phase) ==> outcome_fixed(s.after(x).phase),
        sample(s.phase) ==> s.after(x).outcome == spec_status(x) && outcome_fixed(
            s.after(x).phase,
        ),
{
}

/// Which states and inputs lead into the phases that guard the erase and the
/// outcome.
pub proof fn lemma_entry(s: FlashOp, x: u32)
    ensures
        s.after(x).phase == Phase::EraseStart ==> (s.phase == Phase::EraseUnlockCheck
            && !spec_is_locked(x)) || s.phase == Phase::EraseKey2,
        s.after(x).phase == Phase::EraseKey2 ==> s.phase == Phase::EraseKey1,
        s.after(x).phase == Phase::EraseKey1 ==> s.phase == Phase::EraseUnlockCheck
            && spec_is_locked(x),
        s.after(x).phase == Phase::EraseReadySample ==> s.phase == Phase::EraseReadyWait
            && !spec_in_progress(x),
        s.after(x).phase == Phase::WriteReadySample ==> s.phase == Phase::WriteReadyWait
            && !spec_in_progress(x),
        s.after(x).phase == Phase::ReadySample ==> s.phase == Phase::ReadyWait
            && !spec_in_progress(x),
        s.after(x).phase == Phase::EraseClearRead ==> s.phase == Phase::EraseIdleWait
            && s.pass_idle(x),
        s.after(x).phase == Phase::EraseUnlockCheck ==> s.phase == Phase::EraseUnlockWait
            && s.pass_idle(x),
        s.after(x).phase == Phase::Finished && s.phase == Phase::EraseFinalWait ==> s.pass_idle(
            x,
        ),
        s.after(x).phase == Phase::EraseClearWrite ==> s.phase == Phase::EraseClearRead
            && s.after(x).last == x,
        s.after(x).phase == Phase::EraseClearPerWrite ==> s.phase == Phase::EraseClearPerRead
            && s.after(x).last == x,
        s.after(x).phase == Phase::EraseLockWrite ==> s.phase == Phase::EraseLockRead
            && s.after(x).last == x,
        s.after(x).phase == Phase::UnlockCheck ==> s.phase == Phase::UnlockWait
            && s.pass_idle(x),
{
}

/// A first read of an idle-wait pass is kept only by the step that makes it,
/// which stays in its phase.
pub proof fn lemma_poll_origin(s: FlashOp, x: u32)
    requires
        s.wf(),
    ensures
        s.after(x).polled is Some ==> s.polled is None && s.after(x).polled == Some(x)
            && s.after(x).phase == s.phase,
{
}

/// The trace has one state more than there are inputs, starts at `op`, and each
/// state follows from the one before it and the input between them.
pub proof fn lemma_trace_step(op: FlashOp, inputs: Seq<u32>, k: int)
    requires
        0 <= k < inputs.len(),
    ensures
        trace(op, inputs).len() == inputs.len() + 1,
        trace(op, inputs)[0] == op,
        trace(op, inputs)[k + 1] == trace(op, inputs)[k].after(inputs[k]),
    decreases k,
{
    lemma_trace_len(op, inputs);
    let rest = inputs.drop_first();
    let s2 = op.after(inputs[0]);
    lemma_trace_len(s2, rest);
    if k > 0 {
        lemma_trace_step(s2, rest, k - 1);
    }
}

/// The trace has one state more than there are inputs and starts at `op`.
pub proof fn lemma_trace_len(op: FlashOp, inputs: Seq<u32>)
    ensures
        trace(op, inputs).len() == inputs.len() + 1,
        trace(op, inputs)[0] == op,
    decreases inputs.len(),
{
    if inputs.len() > 0 {
        lemma_trace_len(op.after(inputs[0]), inputs.drop_first());
    }
}

/// Every state of the trace of a well-formed state is well formed and keeps the
/// family, the target and the data.
pub proof fn lemma_trace_wf(op: FlashOp, inputs: Seq<u32>, k: int)
    requires
        op.wf(),
        0 <= k <= inputs.len(),
    ensures
        trace(op, inputs)[k].wf(),
        trace(op, inputs)[k].family == op.family,
        trace(op, inputs)[k].target == op.target,
        trace(op, inputs)[k].data == op.data,
    decreases k,
{
    lemma_trace_len(op, inputs);
    if k > 0 {
        lemma_trace_wf(op, inputs, k - 1);
        lemma_trace_step(op, inputs, k - 1);
        lemma_step(trace(op, inputs)[k - 1], inputs[k - 1]);
    }
}

/// Ranks never decrease along a trace.
pub proof fn lemma_trace_monotone(op: FlashOp, inputs: Seq<u32>, i: int, j: int)
    requires
        op.wf(),
        0 <= i <= j <= inputs.len(),
    ensures
        rank(trace(op, inputs)[i].phase) <= rank(trace(op, inputs)[j].phase),
    decreases j - i,
{
    lemma_trace_len(op, inputs);
    if i < j {
        lemma_trace_monotone(op, inputs, i, j - 1);
        lemma_trace_step(op, inputs, j - 1);
        lemma_trace_wf(op, inputs, j - 1);
        lemma_step(trace(op, inputs)[j - 1], inputs[j - 1]);
    }
}

/// A trace that ends finished and holds, at index `from`, a state of the
/// procedure of the milestone `target` that has not passed it, goes through
/// `target` at some index from `from` on.
pub proof fn lemma_reaches(op: FlashOp, inputs: Seq<u32>, from: int, target: Phase) -> (i: int)
    requires
        op.wf(),
        milestone(target),
        0 <= from <= inputs.len(),
        procedure(trace(op, inputs)[from].phase) == procedure(target),
        rank(trace(op, inputs)[from].phase) <= rank(target),
        trace(op, inputs).last().phase == Phase::Finished,
    ensures
        from <= i < inputs.len(),
        trace(op, inputs)[i].phase == target,
    decreases inputs.len() - from,
{
    lemma_trace_len(op, inputs);
    let t = trace(op, inputs);
    lemma_trace_wf(op, inputs, from);
    if t[from].phase == target {
        from
    } else {
        assert(from < inputs.len());
        lemma_trace_step(op, inputs, from);
        lemma_step(t[from], inputs[from]);
        lemma_reaches(op, inputs, from + 1, target)
    }
}

/// Once the outcome is fixed it is the outcome of every later state.
pub proof fn lemma_outcome_kept(op: FlashOp, inputs: Seq<u32>, from: int, k: int)
    requires
        op.wf(),
        0 <= from <= k <= inputs.len(),
        outcome_fixed(trace(op, inputs)[from].phase),
    ensures
        outcome_fixed(trace(op, inputs)[k].phase),
        trace(op, inputs)[k].outcome == trace(op, inputs)[from].outcome,
    decreases k - from,
{
    lemma_trace_len(op, inputs);
    if from < k {
        lemma_outcome_kept(op, inputs, from, k - 1);
        lemma_trace_step(op, inputs, k - 1);
        lemma_trace_wf(op, inputs, k - 1);
        lemma_step(trace(op, inputs)[k - 1], inputs[k - 1]);
    }
}

} // verus!
