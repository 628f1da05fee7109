use vstd::prelude::*;

use crate::bank::{spec_bank_field, spec_check_bank_setup, BankConfig};
use crate::control::{
    spec_clear_per, spec_erase_cr, spec_is_locked, spec_le_word, spec_lock, spec_page_index,
};
use crate::ops::{Action, FlashOp, Phase};
use crate::regs::{
    Family, CR_LOCK, CR_PER, CR_PG, CR_STRT, ERASE_SIZE, FLASH_BASE, KEY1, KEY2, SR_BSY2,
    SR_PGAERR, SR_PROGERR, SR_WRPERR,
};
use crate::status::{spec_busy, spec_in_progress, spec_status, Error};
use crate::trace::{
    lemma_entry, lemma_outcome_kept, lemma_poll_origin, lemma_reaches, lemma_step, lemma_trace_len,
    lemma_trace_monotone, lemma_trace_step, lemma_trace_wf, procedure, trace,
};

verus! {

/// Locking sets LOCK, changes no other bit, and locking twice is locking once.
pub proof fn lemma_lock(cr: u32)
    ensures
        spec_is_locked(spec_lock(cr)),
        spec_lock(cr) & !CR_LOCK == cr & !CR_LOCK,
        spec_lock(spec_lock(cr)) == spec_lock(cr),
{
    assert(spec_lock(cr) & CR_LOCK != 0) by (bit_vector);
    assert((cr | 0x8000_0000u32) & !0x8000_0000u32 == cr & !0x8000_0000u32) by (bit_vector);
    assert((cr | 0x8000_0000u32) | 0x8000_0000u32 == cr | 0x8000_0000u32) by (bit_vector);
}

/// Ending a page erase clears PER and changes no other bit of the control register.
pub proof fn lemma_clear_per(cr: u32)
    ensures
        spec_clear_per(cr) & CR_PER == 0,
        spec_clear_per(cr) | CR_PER == cr | CR_PER,
{
    assert((cr & !2u32) & 2u32 == 0) by (bit_vector);
    assert((cr & !2u32) | 2u32 == cr | 2u32) by (bit_vector);
}

/// The erase command for page `idx` selects page erase and starts it, carries the
/// page number modulo 128 in bits 9:3, and sets no other bit; in particular it
/// leaves PG and LOCK clear.
pub proof fn lemma_erase_cr_fields(idx: u32)
    ensures
        (spec_erase_cr(idx) >> 3u32) & 0x7F == idx % 128,
        spec_erase_cr(idx) & CR_PER != 0,
        spec_erase_cr(idx) & CR_STRT != 0,
        spec_erase_cr(idx) & CR_PG == 0,
        spec_erase_cr(idx) & CR_LOCK == 0,
        spec_erase_cr(idx) & !(CR_PER | CR_STRT | 0x3F8) == 0,
{
    let v: u32 = spec_erase_cr(idx);
    assert((v >> 3u32) & 0x7F == idx % 128) by (bit_vector)
        requires
            v == 2u32 | ((idx & 0x7Fu32) << 3u32) | 0x1_0000u32,
    ;
    assert(v & 2 != 0 && v & 0x1_0000 != 0 && v & 1 == 0 && v & 0x8000_0000 == 0 && v & !(2u32
        | 0x1_0000u32 | 0x3F8u32) == 0) by (bit_vector)
        requires
            v == 2u32 | ((idx & 0x7Fu32) << 3u32) | 0x1_0000u32,
    ;
}

/// The page that starts `n` pages above the flash base has index `n`.
pub proof fn lemma_page_index_of_page(n: u32)
    requires
        FLASH_BASE + n * ERASE_SIZE <= u32::MAX,
    ensures
        spec_page_index((FLASH_BASE + n * ERASE_SIZE) as u32) == n,
{
    assert((n * 2048) / 2048 == n) by (nonlinear_arith);
}

/// A programmed word holds the four bytes it was made of, least significant first.
pub proof fn lemma_le_word_bytes(data: Seq<u8>, i: int)
    requires
        0 <= i,
        4 * i + 3 < data.len(),
    ensures
        spec_le_word(data, i) % 0x100 == data[4 * i],
        (spec_le_word(data, i) / 0x100) % 0x100 == data[4 * i + 1],
        (spec_le_word(data, i) / 0x1_0000) % 0x100 == data[4 * i + 2],
        spec_le_word(data, i) / 0x100_0000 == data[4 * i + 3],
{
    let b0: int = data[4 * i] as int;
    let b1: int = data[4 * i + 1] as int;
    let b2: int = data[4 * i + 2] as int;
    let b3: int = data[4 * i + 3] as int;
    let w: int = b0 + 0x100 * b1 + 0x1_0000 * b2 + 0x100_0000 * b3;
    assert(0 <= w <= u32::MAX) by (nonlinear_arith)
        requires
            0 <= b0 < 256,
            0 <= b1 < 256,
            0 <= b2 < 256,
            0 <= b3 < 256,
            w == b0 + 0x100 * b1 + 0x1_0000 * b2 + 0x100_0000 * b3,
    ;
    assert(w % 0x100 == b0 && (w / 0x100) % 0x100 == b1 && (w / 0x1_0000) % 0x100 == b2 && w
        / 0x100_0000 == b3) by (nonlinear_arith)
        requires
            0 <= b0 < 256,
            0 <= b1 < 256,
            0 <= b2 < 256,
            0 <= b3 < 256,
            w == b0 + 0x100 * b1 + 0x1_0000 * b2 + 0x100_0000 * b3,
    ;
}

/// The outcome of an operation depends on PROGERR, WRPERR and PGAERR alone, and
/// it is a success exactly when none of them is set.
pub proof fn lemma_status_error_bits(sr: u32)
    ensures
        spec_status(sr) == spec_status(sr & (SR_PROGERR | SR_WRPERR | SR_PGAERR)),
        spec_status(sr) == Ok::<(), Error>(()) <==> sr & (SR_PROGERR | SR_WRPERR | SR_PGAERR)
            == 0,
{
    let m: u32 = sr & (8u32 | 0x10u32 | 0x20u32);
    assert((sr & 8 != 0) == (m & 8 != 0) && (sr & 0x10 != 0) == (m & 0x10 != 0) && (sr & 0x20
        != 0) == (m & 0x20 != 0)) by (bit_vector)
        requires
            m == sr & (8u32 | 0x10u32 | 0x20u32),
    ;
    assert((m == 0) == (sr & 8 == 0 && sr & 0x10 == 0 && sr & 0x20 == 0)) by (bit_vector)
        requires
            m == sr & (8u32 | 0x10u32 | 0x20u32),
    ;
}

/// A pass of the idle wait that finds the controller idle has seen BSY clear in
/// its first read; on C0 and G4 the pass is decided by BSY of its one read alone,
/// and on G0x0 and G0x1 by BSY of the first read and BSY2 of the second.
pub proof fn lemma_idle_wait(family: Family, first: u32, second: u32)
    ensures
        !spec_busy(family, first, second) ==> !spec_in_progress(first),
        family == Family::C0 || family == Family::G4 ==> spec_busy(family, first, second)
            == spec_in_progress(first),
        family == Family::G0x0 || family == Family::G0x1 ==> spec_busy(family, first, second)
            == (spec_in_progress(first) || second & SR_BSY2 != 0),
{
}

/// On G0x0 and G0x1 every pass of an idle wait reads the status register twice:
/// a state that holds the first read of a pass follows, in the same phase, the
/// state that had none, and that first read is the input between them.
pub proof fn lemma_two_read_pass(op: FlashOp, inputs: Seq<u32>, k: int)
    requires
        op.wf(),
        op.polled is None,
        0 <= k <= inputs.len(),
        trace(op, inputs)[k].polled is Some,
    ensures
        ({
            let t = trace(op, inputs);
            &&& k >= 1
            &&& t[k - 1].polled is None
            &&& t[k - 1].phase == t[k].phase
            &&& t[k].polled == Some(inputs[k - 1])
        }),
{
    lemma_trace_len(op, inputs);
    let t = trace(op, inputs);
    assert(k >= 1);
    lemma_trace_step(op, inputs, k - 1);
    lemma_trace_wf(op, inputs, k - 1);
    lemma_poll_origin(t[k - 1], inputs[k - 1]);
}

/// The final idle wait of an erase ends with a pass that finds the controller idle.
proof fn lemma_final_wait_ends(op: FlashOp, inputs: Seq<u32>, from: int) -> (f: int)
    requires
        op.wf(),
        0 <= from <= inputs.len(),
        trace(op, inputs)[from].phase == Phase::EraseFinalWait,
        trace(op, inputs).last().phase == Phase::Finished,
    ensures
        from < f <= inputs.len(),
        trace(op, inputs)[f].phase == Phase::Finished,
        trace(op, inputs)[f - 1].phase == Phase::EraseFinalWait,
        trace(op, inputs)[f - 1].pass_idle(inputs[f - 1]),
    decreases inputs.len() - from,
{
    lemma_trace_len(op, inputs);
    let t = trace(op, inputs);
    assert(from < inputs.len());
    lemma_trace_step(op, inputs, from);
    lemma_trace_wf(op, inputs, from);
    lemma_entry(t[from], inputs[from]);
    if t[from + 1].phase == Phase::Finished {
        from + 1
    } else {
        lemma_final_wait_ends(op, inputs, from + 1)
    }
}

/// Where the bank organisation is configurable, exactly one of the single-bank and
/// the dual-bank configuration passes the check, selecting both never passes, and
/// selecting neither always does; elsewhere every configuration passes.
pub proof fn lemma_bank_setup_one_match(family: Family, optr: u32)
    ensures
        spec_check_bank_setup(
            family,
            BankConfig { single_bank: false, dual_bank: false },
            optr,
        ) is Ok,
        spec_bank_field(family) is Some ==> (spec_check_bank_setup(
            family,
            BankConfig { single_bank: true, dual_bank: false },
            optr,
        ) is Ok) != (spec_check_bank_setup(
            family,
            BankConfig { single_bank: false, dual_bank: true },
            optr,
        ) is Ok),
        spec_bank_field(family) is Some ==> spec_check_bank_setup(
            family,
            BankConfig { single_bank: true, dual_bank: true },
            optr,
        ) is Err,
        spec_bank_field(family) is None ==> forall|config: BankConfig|
            #[trigger] spec_check_bank_setup(family, config, optr) is Ok,
{
}

/// A page erase that ends goes through its protocol in order: after the controller
/// is idle it writes back the status value it read (clearing the error flags); it
/// starts the erase once, with interrupts disabled, writing the erase command; it
/// decides the outcome by the status read right after BSY was seen clear; it then
/// writes back the control value it read with PER cleared, and after that the
/// control value it read with LOCK set. The control read of the unlock follows an
/// idle pass, and the run ends with a final idle wait whose last pass finds the
/// controller idle.
pub proof fn lemma_erase_sequence(op: FlashOp, inputs: Seq<u32>) -> (r: (
    int,
    int,
    int,
    int,
    int,
    int,
    int,
))
    requires
        op.wf(),
        op.phase == Phase::EraseIdleWait,
        trace(op, inputs).last().phase == Phase::Finished,
    ensures
        ({
            let t = trace(op, inputs);
            let (c, u, i, m, j, k, f) = r;
            &&& 2 <= c < u < i < m < j < k < f <= inputs.len()
            &&& t[c - 1].phase == Phase::EraseClearRead
            &&& t[c - 2].phase == Phase::EraseIdleWait
            &&& t[c - 2].pass_idle(inputs[c - 2])
            &&& t[u - 1].phase == Phase::EraseUnlockWait
            &&& t[u - 1].pass_idle(inputs[u - 1])
            &&& t[u].pending() == Action::ReadCr
            &&& t[u].phase == Phase::EraseUnlockCheck
            &&& t[c - 1].pending() == Action::ReadSr
            &&& t[c].pending() == Action::WriteSr(inputs[c - 1])
            &&& t[i].pending() == Action::WriteCrInterruptFree(op.target)
            &&& t[m - 1].phase == Phase::EraseReadyWait
            &&& !spec_in_progress(inputs[m - 1])
            &&& t[m].pending() == Action::ReadSr
            &&& t[m].phase == Phase::EraseReadySample
            &&& t.last().outcome == spec_status(inputs[m])
            &&& t.last().pending() == Action::Finish(spec_status(inputs[m]))
            &&& t[j - 1].pending() == Action::ReadCr
            &&& t[j].pending() == Action::WriteCr(spec_clear_per(inputs[j - 1]))
            &&& t[k - 1].pending() == Action::ReadCr
            &&& t[k].pending() == Action::WriteCr(spec_lock(inputs[k - 1]))
            &&& t[f - 1].phase == Phase::EraseFinalWait
            &&& t[f - 1].pending() == Action::ReadSr
            &&& t[f - 1].pass_idle(inputs[f - 1])
            &&& t[f].phase == Phase::Finished
        }),
{
    let t = trace(op, inputs);
    lemma_trace_len(op, inputs);
    let c = lemma_reaches(op, inputs, 0, Phase::EraseClearWrite);
    lemma_trace_wf(op, inputs, c);
    let u = lemma_reaches(op, inputs, c, Phase::EraseUnlockCheck);
    lemma_trace_wf(op, inputs, u);
    lemma_trace_step(op, inputs, u - 1);
    lemma_entry(t[u - 1], inputs[u - 1]);
    let i = lemma_reaches(op, inputs, u, Phase::EraseStart);
    lemma_trace_wf(op, inputs, i);
    let m = lemma_reaches(op, inputs, i, Phase::EraseReadySample);
    lemma_trace_wf(op, inputs, m);
    let j = lemma_reaches(op, inputs, m, Phase::EraseClearPerWrite);
    let k = lemma_reaches(op, inputs, j, Phase::EraseLockWrite);
    lemma_trace_wf(op, inputs, j);
    lemma_trace_wf(op, inputs, k);
    // the state before each of these phases
    lemma_trace_step(op, inputs, c - 1);
    lemma_entry(t[c - 1], inputs[c - 1]);
    lemma_trace_step(op, inputs, c - 2);
    lemma_entry(t[c - 2], inputs[c - 2]);
    lemma_trace_step(op, inputs, m - 1);
    lemma_entry(t[m - 1], inputs[m - 1]);
    lemma_trace_step(op, inputs, j - 1);
    lemma_entry(t[j - 1], inputs[j - 1]);
    lemma_trace_step(op, inputs, k - 1);
    lemma_entry(t[k - 1], inputs[k - 1]);
    // the outcome, decided at m, is kept to the end
    lemma_trace_step(op, inputs, m);
    lemma_step(t[m], inputs[m]);
    lemma_outcome_kept(op, inputs, m + 1, inputs.len() as int);
    let w = lemma_reaches(op, inputs, k, Phase::EraseFinalWait);
    let f = lemma_final_wait_ends(op, inputs, w);
    (c, u, i, m, j, k, f)
}

/// A page erase writes the erase command only once the control register was read
/// unlocked, or right after KEY1 and KEY2 were written following a read that found
/// it locked.
pub proof fn lemma_erase_starts_unlocked(op: FlashOp, inputs: Seq<u32>, i: int)
    requires
        op.wf(),
        op.phase == Phase::EraseIdleWait,
        0 <= i <= inputs.len(),
        trace(op, inputs)[i].phase == Phase::EraseStart,
    ensures
        ({
            let t = trace(op, inputs);
            ||| (i >= 1 && t[i - 1].phase == Phase::EraseUnlockCheck && t[i - 1].pending()
                == Action::ReadCr && !spec_is_locked(inputs[i - 1]))
            ||| (i >= 3 && t[i - 3].phase == Phase::EraseUnlockCheck && spec_is_locked(
                inputs[i - 3],
            ) && t[i - 2].pending() == Action::WriteKeyr(KEY1) && t[i - 1].pending()
                == Action::WriteKeyr(KEY2))
        }),
{
    let t = trace(op, inputs);
    lemma_trace_len(op, inputs);
    assert(i >= 1);
    lemma_trace_step(op, inputs, i - 1);
    lemma_entry(t[i - 1], inputs[i - 1]);
    if t[i - 1].phase == Phase::EraseKey2 {
        assert(i >= 2);
        lemma_trace_step(op, inputs, i - 2);
        lemma_entry(t[i - 2], inputs[i - 2]);
        assert(i >= 3);
        lemma_trace_step(op, inputs, i - 3);
        lemma_entry(t[i - 3], inputs[i - 3]);
    }
}

/// A page erase writes its erase command at most once.
pub proof fn lemma_erase_starts_once(op: FlashOp, inputs: Seq<u32>, a: int, b: int)
    requires
        op.wf(),
        0 <= a <= inputs.len(),
        0 <= b <= inputs.len(),
        trace(op, inputs)[a].phase == Phase::EraseStart,
        trace(op, inputs)[b].phase == Phase::EraseStart,
    ensures
        a == b,
{
    let t = trace(op, inputs);
    lemma_trace_len(op, inputs);
    if a < b {
        lemma_trace_step(op, inputs, a);
        lemma_trace_monotone(op, inputs, a + 1, b);
    } else if b < a {
        lemma_trace_step(op, inputs, b);
        lemma_trace_monotone(op, inputs, b + 1, a);
    }
}

/// Outcomes set before a procedure without a deciding status read stay as they are.
proof fn lemma_unlock_outcome(op: FlashOp, inputs: Seq<u32>, k: int)
    requires
        op.wf(),
        procedure(op.phase) == 1,
        0 <= k <= inputs.len(),
    ensures
        procedure(trace(op, inputs)[k].phase) == 1 || trace(op, inputs)[k].phase
            == Phase::Finished,
        trace(op, inputs)[k].outcome == op.outcome,
    decreases k,
{
    lemma_trace_len(op, inputs);
    if k > 0 {
        lemma_unlock_outcome(op, inputs, k - 1);
        lemma_trace_step(op, inputs, k - 1);
        lemma_trace_wf(op, inputs, k - 1);
        lemma_step(trace(op, inputs)[k - 1], inputs[k - 1]);
    }
}

/// An unlock that ends has read the control register once the controller was idle,
/// and wrote KEY1 then KEY2 right after if that read found LOCK set, and nothing if
/// it did not; it ends with a success.
pub proof fn lemma_unlock_sequence(op: FlashOp, inputs: Seq<u32>) -> (c: int)
    requires
        op.wf(),
        op.phase == Phase::UnlockWait,
        op.outcome == Ok::<(), Error>(()),
        trace(op, inputs).last().phase == Phase::Finished,
    ensures
        ({
            let t = trace(op, inputs);
            &&& 1 <= c < inputs.len()
            &&& t[c - 1].phase == Phase::UnlockWait
            &&& t[c - 1].pass_idle(inputs[c - 1])
            &&& t[c].pending() == Action::ReadCr
            &&& spec_is_locked(inputs[c]) ==> c + 3 <= inputs.len() && t[c + 1].pending()
                == Action::WriteKeyr(KEY1) && t[c + 2].pending() == Action::WriteKeyr(KEY2)
                && t[c + 3].phase == Phase::Finished
            &&& !spec_is_locked(inputs[c]) ==> t[c + 1].phase == Phase::Finished
            &&& t.last().pending() == Action::Finish(Ok(()))
        }),
{
    let t = trace(op, inputs);
    lemma_trace_len(op, inputs);
    let c = lemma_reaches(op, inputs, 0, Phase::UnlockCheck);
    lemma_trace_wf(op, inputs, c - 1);
    lemma_trace_step(op, inputs, c - 1);
    lemma_entry(t[c - 1], inputs[c - 1]);
    lemma_trace_step(op, inputs, c);
    if spec_is_locked(inputs[c]) {
        assert(t[c + 1].phase == Phase::UnlockKey1);
        assert(c + 1 < inputs.len());
        lemma_trace_step(op, inputs, c + 1);
        assert(t[c + 2].phase == Phase::UnlockKey2);
        assert(c + 2 < inputs.len());
        lemma_trace_step(op, inputs, c + 2);
        assert(t[c + 3].phase == Phase::Finished);
    }
    lemma_unlock_outcome(op, inputs, inputs.len() as int);
    assert(t.last() == t[inputs.len() as int]);
    c
}

/// A program operation stores its two words, least significant byte first, at the
/// first address and four bytes above it, before anything else; once it ends, its
/// outcome is the status read right after BSY was seen clear.
pub proof fn lemma_write_sequence(op: FlashOp, inputs: Seq<u32>) -> (m: int)
    requires
        op.wf(),
        op.phase == Phase::Program(0),
        trace(op, inputs).last().phase == Phase::Finished,
    ensures
        ({
            let t = trace(op, inputs);
            &&& 3 <= m < inputs.len()
            &&& t[0].pending() == Action::ProgramWord {
                address: op.target,
                word: spec_le_word(op.data@, 0),
            }
            &&& t[1].pending() == Action::ProgramWord {
                address: (op.target + 4) as u32,
                word: spec_le_word(op.data@, 1),
            }
            &&& t[2].phase == Phase::WriteReadyWait
            &&& t[m - 1].phase == Phase::WriteReadyWait
            &&& !spec_in_progress(inputs[m - 1])
            &&& t[m].pending() == Action::ReadSr
            &&& t.last().outcome == spec_status(inputs[m])
            &&& t.last().pending() == Action::Finish(spec_status(inputs[m]))
        }),
{
    let t = trace(op, inputs);
    lemma_trace_len(op, inputs);
    assert(inputs.len() >= 1);
    lemma_trace_step(op, inputs, 0);
    assert(inputs.len() >= 2);
    lemma_trace_step(op, inputs, 1);
    lemma_trace_wf(op, inputs, 2);
    let m = lemma_reaches(op, inputs, 2, Phase::WriteReadySample);
    lemma_trace_wf(op, inputs, m);
    lemma_trace_step(op, inputs, m - 1);
    lemma_entry(t[m - 1], inputs[m - 1]);
    lemma_trace_step(op, inputs, m);
    lemma_step(t[m], inputs[m]);
    lemma_outcome_kept(op, inputs, m + 1, inputs.len() as int);
    m
}

/// The wait for the end of an operation, once it ends, reports the status read
/// right after BSY was seen clear.
pub proof fn lemma_wait_ready_sequence(op: FlashOp, inputs: Seq<u32>) -> (m: int)
    requires
        op.wf(),
        op.phase == Phase::ReadyWait,
        trace(op, inputs).last().phase == Phase::Finished,
    ensures
        ({
            let t = trace(op, inputs);
            &&& 1 <= m < inputs.len()
            &&& t[m - 1].phase == Phase::ReadyWait
            &&& !spec_in_progress(inputs[m - 1])
            &&& t[m].pending() == Action::ReadSr
            &&& t.last().outcome == spec_status(inputs[m])
            &&& t.last().pending() == Action::Finish(spec_status(inputs[m]))
        }),
{
    let t = trace(op, inputs);
    lemma_trace_len(op, inputs);
    let m = lemma_reaches(op, inputs, 0, Phase::ReadySample);
    lemma_trace_wf(op, inputs, m);
    lemma_trace_step(op, inputs, m - 1);
    lemma_entry(t[m - 1], inputs[m - 1]);
    lemma_trace_step(op, inputs, m);
    lemma_step(t[m], inputs[m]);
    lemma_outcome_kept(op, inputs, m + 1, inputs.len() as int);
    m
}

} // verus!
