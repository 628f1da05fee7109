use vstd::prelude::*;

use crate::bank::{spec_check_bank_setup, BankConfig, BankField, BankSetupError};
use crate::control::{spec_clear_per, spec_is_locked, spec_lock, spec_page_index};
use crate::ops::{Action, FlashOp, Phase};
use crate::regs::{Family, KEY1, KEY2};
use crate::status::{spec_busy, spec_in_progress, spec_status, Error};
use crate::trace::{lemma_step, lemma_trace_len, lemma_trace_step, lemma_trace_wf, rank, trace};

verus! {

/// The unlock keys are 0x4567_0123 then 0xCDEF_89AB, and enabling programming
/// writes bit 0 (PG) alone.
pub proof fn lemma_key_and_pg_values()
    ensures
        KEY1 == 0x4567_0123,
        KEY2 == 0xCDEF_89AB,
        crate::regs::CR_PG == 1,
{
}

/// The control register reads as locked exactly when bit 31 (LOCK) is set; no
/// other bit plays a part.
pub proof fn lemma_locked_iff_bit31(cr: u32)
    ensures
        spec_is_locked(cr) <==> cr & 0x8000_0000 != 0,
        spec_is_locked(cr) == spec_is_locked(cr & 0x8000_0000),
{
    assert((cr & 0x8000_0000u32) & 0x8000_0000u32 == cr & 0x8000_0000u32) by (bit_vector);
}

/// Locking ORs bit 31 into the value read; ending an erase clears bit 1 of it.
pub proof fn lemma_lock_and_clear_per_values(cr: u32)
    ensures
        spec_lock(cr) == cr | 0x8000_0000,
        spec_clear_per(cr) == cr & 0xFFFF_FFFD,
{
    assert(!2u32 == 0xFFFF_FFFDu32) by (bit_vector);
}

/// The end-of-operation wait goes on exactly while bit 16 (BSY) is set, whatever
/// every other bit holds, BSY2, CFGBSY and the error flags among them.
pub proof fn lemma_in_progress_iff_bsy(sr: u32)
    ensures
        spec_in_progress(sr) <==> sr & 0x0001_0000 != 0,
        spec_in_progress(sr) == spec_in_progress(sr & 0x0001_0000),
{
    assert((sr & 0x1_0000u32) & 0x1_0000u32 == sr & 0x1_0000u32) by (bit_vector);
}

/// A pass of the idle wait finds the controller busy exactly when bit 16 (BSY) is
/// set in its first read, or, on G0x0 and G0x1 only, bit 17 (BSY2) is set in its
/// second read; no other bit plays a part.
pub proof fn lemma_busy_bits(family: Family, first: u32, second: u32)
    ensures
        (family == Family::C0 || family == Family::G4) ==> (spec_busy(family, first, second) <==> first
            & 0x0001_0000 != 0),
        (family == Family::G0x0 || family == Family::G0x1) ==> (spec_busy(family, first, second)
            <==> (first & 0x0001_0000 != 0 || second & 0x0002_0000 != 0)),
{
}

/// The outcome of an operation: bit 3 (PROGERR) set gives a programming error; else
/// bit 4 (WRPERR) a protection error; else bit 5 (PGAERR) an alignment error; and
/// none of them a success, whatever the other bits hold.
pub proof fn lemma_status_bits(sr: u32)
    ensures
        spec_status(sr) == Err::<(), Error>(Error::Prog) <==> sr & 0x08 != 0,
        spec_status(sr) == Err::<(), Error>(Error::Protected) <==> sr & 0x08 == 0 && sr & 0x10
            != 0,
        spec_status(sr) == Err::<(), Error>(Error::Unaligned) <==> sr & 0x08 == 0 && sr & 0x10
            == 0 && sr & 0x20 != 0,
        spec_status(sr) == Ok::<(), Error>(()) <==> sr & 0x38 == 0,
{
    assert((sr & 0x38 == 0) == (sr & 0x08 == 0 && sr & 0x10 == 0 && sr & 0x20 == 0))
        by (bit_vector);
}

/// The page index of an address is the number of whole 2048-byte pages between
/// 0x0800_0000 and it: the page it names starts at or below it, and the next one
/// above it.
pub proof fn lemma_page_index_floor(start: u32)
    requires
        start >= 0x0800_0000,
    ensures
        0x0800_0000 + spec_page_index(start) * 2048 <= start,
        start < 0x0800_0000 + (spec_page_index(start) + 1) * 2048,
        spec_page_index(start) >= 0,
{
    let d: int = start - 0x0800_0000;
    assert(0 <= d / 2048 && (d / 2048) * 2048 <= d < (d / 2048 + 1) * 2048) by (nonlinear_arith)
        requires
            d >= 0,
    ;
}

/// The bank setup check of G0x1 reads bit 21 (DUAL_BANK) of the option register
/// and that of G4 bit 22 (DBANK), and no other bit; a single-bank build fails where
/// that bit is set, a dual-bank build where it is clear, the single-bank test coming
/// first; C0 and G0x0 always pass.
pub proof fn lemma_bank_setup_bits(family: Family, config: BankConfig, optr: u32)
    ensures
        family == Family::G0x1 ==> spec_check_bank_setup(family, config, optr) == if config.single_bank
            && optr & 0x0020_0000 != 0 {
            Err(BankSetupError::HardwareDualBank(BankField::DualBank))
        } else if config.dual_bank && optr & 0x0020_0000 == 0 {
            Err(BankSetupError::HardwareSingleBank(BankField::DualBank))
        } else {
            Ok(())
        },
        family == Family::G4 ==> spec_check_bank_setup(family, config, optr) == if config.single_bank
            && optr & 0x0040_0000 != 0 {
            Err(BankSetupError::HardwareDualBank(BankField::Dbank))
        } else if config.dual_bank && optr & 0x0040_0000 == 0 {
            Err(BankSetupError::HardwareSingleBank(BankField::Dbank))
        } else {
            Ok(())
        },
        family == Family::C0 || family == Family::G0x0 ==> spec_check_bank_setup(
            family,
            config,
            optr,
        ) == Ok::<(), BankSetupError>(()),
{
}

/// The phase that an idle wait goes on to once it finds the controller idle.
pub open spec fn after_idle(p: Phase) -> Phase {
    match p {
        Phase::EraseIdleWait => Phase::EraseClearRead,
        Phase::EraseUnlockWait => Phase::EraseUnlockCheck,
        Phase::EraseFinalWait => Phase::Finished,
        Phase::UnlockWait => Phase::UnlockCheck,
        Phase::EraseReadyWait => Phase::EraseReadySample,
        Phase::WriteReadyWait => Phase::WriteReadySample,
        Phase::ReadyWait => Phase::ReadySample,
        _ => p,
    }
}

/// How every wait decides on the status value `x` it reads. An end-of-operation
/// wait moves on exactly when bit 16 (BSY) of `x` is clear and otherwise stays. An
/// idle wait of C0 or G4 moves on exactly when bit 16 of `x` is clear. An idle wait
/// of G0x0 or G0x1 keeps `x` as the first read of a pass if it has none; otherwise
/// `x` is the second read, and it moves on exactly when bit 16 of the first read and
/// bit 17 (BSY2) of `x` are clear. The error flags play no part in any of them.
pub proof fn lemma_wait_decisions(s: FlashOp, x: u32)
    requires
        s.wf(),
    ensures
        (s.phase == Phase::EraseReadyWait || s.phase == Phase::WriteReadyWait || s.phase
            == Phase::ReadyWait) ==> if x & 0x0001_0000 == 0 {
            s.after(x).phase == after_idle(s.phase)
        } else {
            s.after(x) == s
        },
        (s.phase == Phase::EraseIdleWait || s.phase == Phase::EraseUnlockWait || s.phase
            == Phase::EraseFinalWait || s.phase == Phase::UnlockWait) && (s.family == Family::C0
            || s.family == Family::G4) ==> if x & 0x0001_0000 == 0 {
            s.after(x).phase == after_idle(s.phase)
        } else {
            s.after(x) == s
        },
        (s.phase == Phase::EraseIdleWait || s.phase == Phase::EraseUnlockWait || s.phase
            == Phase::EraseFinalWait || s.phase == Phase::UnlockWait) && (s.family == Family::G0x0
            || s.family == Family::G0x1) ==> match s.polled {
            None => s.after(x).phase == s.phase && s.after(x).polled == Some(x),
            Some(first) => s.after(x).polled is None && if first & 0x0001_0000 == 0 && x
                & 0x0002_0000 == 0 {
                s.after(x).phase == after_idle(s.phase)
            } else {
                s.after(x).phase == s.phase
            },
        },
{
}

/// How the reads of the control register and the deciding status reads are used:
/// an unlock writes the keys, KEY1 first, exactly when bit 31 (LOCK) of the value
/// read is set, and a page erase likewise before it starts; the deciding status read
/// sets the outcome from bits 3, 4 and 5; the value read before clearing PER or
/// locking is what gets written back, with bit 1 cleared or bit 31 set.
pub proof fn lemma_read_decisions(s: FlashOp, x: u32)
    requires
        s.wf(),
    ensures
        s.phase == Phase::UnlockCheck ==> if x & 0x8000_0000 != 0 {
            s.after(x).phase == Phase::UnlockKey1 && s.after(x).pending() == Action::WriteKeyr(
                KEY1,
            ) && s.after(x).after(0).pending() == Action::WriteKeyr(KEY2)
                && s.after(x).after(0).after(0).phase == Phase::Finished
        } else {
            s.after(x).phase == Phase::Finished
        },
        s.phase == Phase::EraseUnlockCheck ==> if x & 0x8000_0000 != 0 {
            s.after(x).pending() == Action::WriteKeyr(KEY1) && s.after(x).after(0).pending()
                == Action::WriteKeyr(KEY2) && s.after(x).after(0).after(0).phase
                == Phase::EraseStart
        } else {
            s.after(x).phase == Phase::EraseStart
        },
        (s.phase == Phase::EraseReadySample || s.phase == Phase::WriteReadySample || s.phase
            == Phase::ReadySample) ==> s.after(x).outcome == if x & 0x08 != 0 {
            Err(Error::Prog)
        } else if x & 0x10 != 0 {
            Err(Error::Protected)
        } else if x & 0x20 != 0 {
            Err(Error::Unaligned)
        } else {
            Ok(())
        },
        s.phase == Phase::EraseClearRead ==> s.after(x).pending() == Action::WriteSr(x),
        s.phase == Phase::EraseClearPerRead ==> s.after(x).pending() == Action::WriteCr(
            x & 0xFFFF_FFFD,
        ),
        s.phase == Phase::EraseLockRead ==> s.after(x).pending() == Action::WriteCr(
            x | 0x8000_0000,
        ),
{
    lemma_locked_iff_bit31(x);
    lemma_lock_and_clear_per_values(x);
}

/// How far an operation has gone: twice the rank of its phase, one more once the
/// first read of a two-read pass is held, and more than any other once finished.
pub open spec fn progress(s: FlashOp) -> int {
    if s.phase == Phase::Finished {
        200
    } else {
        2 * rank(s.phase) + if s.polled is Some {
            1int
        } else {
            0int
        }
    }
}

/// Whether a status value shows neither BSY nor BSY2 (bits 16 and 17); the error
/// flags may hold anything.
pub open spec fn idle_read(x: u32) -> bool {
    x & 0x0003_0000 == 0
}

/// With the controller idle, every step moves an unfinished operation on.
proof fn lemma_idle_step(s: FlashOp, x: u32)
    requires
        s.wf(),
        s.phase != Phase::Finished,
        s.pending() == Action::ReadSr ==> idle_read(x),
        s.polled matches Some(a) ==> idle_read(a),
    ensures
        progress(s.after(x)) > progress(s),
        progress(s) <= 103,
        s.after(x).polled matches Some(a) ==> idle_read(a),
{
    assert(x & 0x3_0000 == 0 ==> x & 0x1_0000 == 0 && x & 0x2_0000 == 0) by (bit_vector);
    if let Some(a) = s.polled {
        assert(a & 0x3_0000 == 0 ==> a & 0x1_0000 == 0) by (bit_vector);
    }
}

/// Along a run whose status reads are idle, every state has finished or has gone
/// at least as far as its index.
proof fn lemma_idle_run(op: FlashOp, inputs: Seq<u32>, k: int)
    requires
        op.wf(),
        op.polled is None,
        0 <= k <= inputs.len(),
        forall|n: int|
            0 <= n < inputs.len() && #[trigger] trace(op, inputs)[n].pending() == Action::ReadSr
                ==> idle_read(inputs[n]),
    ensures
        trace(op, inputs)[k].phase == Phase::Finished || (progress(trace(op, inputs)[k]) >= k
            && (trace(op, inputs)[k].polled matches Some(a) ==> idle_read(a))),
    decreases k,
{
    lemma_trace_len(op, inputs);
    let t = trace(op, inputs);
    if k > 0 {
        lemma_idle_run(op, inputs, k - 1);
        lemma_trace_step(op, inputs, k - 1);
        lemma_trace_wf(op, inputs, k - 1);
        lemma_step(t[k - 1], inputs[k - 1]);
        if t[k - 1].phase != Phase::Finished {
            assert(t[k - 1].pending() == Action::ReadSr ==> idle_read(inputs[k - 1]));
            lemma_idle_step(t[k - 1], inputs[k - 1]);
        }
    }
}

/// Every operation ends once the controller answers idle: if every status read
/// shows BSY and BSY2 clear, whatever its error flags, and whatever the control
/// reads hold, the operation has finished after 104 accesses.
pub proof fn lemma_ends_when_idle(op: FlashOp, inputs: Seq<u32>)
    requires
        op.wf(),
        op.polled is None,
        inputs.len() >= 104,
        forall|n: int|
            0 <= n < inputs.len() && #[trigger] trace(op, inputs)[n].pending() == Action::ReadSr
                ==> idle_read(inputs[n]),
    ensures
        trace(op, inputs).last().phase == Phase::Finished,
{
    lemma_trace_len(op, inputs);
    let t = trace(op, inputs);
    let l = inputs.len() as int;
    lemma_idle_run(op, inputs, l);
    lemma_trace_wf(op, inputs, l);
    if t[l].phase != Phase::Finished {
        // a state that has not finished has gone no further than 103
        assert(l >= 1);
        lemma_trace_step(op, inputs, l - 1);
        lemma_trace_wf(op, inputs, l - 1);
        lemma_idle_run(op, inputs, l - 1);
        lemma_step(t[l - 1], inputs[l - 1]);
        assert(t[l - 1].phase != Phase::Finished);
        assert(t[l - 1].pending() == Action::ReadSr ==> idle_read(inputs[l - 1]));
        lemma_idle_step(t[l - 1], inputs[l - 1]);
        lemma_idle_step_bound(t[l]);
    }
}

/// An unfinished well-formed state has gone no further than 103.
proof fn lemma_idle_step_bound(s: FlashOp)
    requires
        s.wf(),
        s.phase != Phase::Finished,
    ensures
        progress(s) <= 103,
{
}

} // verus!
