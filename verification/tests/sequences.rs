use stm32_flash::ops::{Action, FlashOp, FlashSector, Phase};
use stm32_flash::regs::{Family, KEY1, KEY2};
use stm32_flash::status::Error;

const BSY: u32 = 0x0001_0000;
const BSY2: u32 = 0x0002_0000;

/// Runs an operation, answering reads of FLASH_SR from `sr` in turn (the last
/// value repeats) and reads of FLASH_CR from `cr` in turn; returns every action.
fn run(mut op: FlashOp, sr: &[u32], cr: &[u32]) -> Vec<Action> {
    let mut out = Vec::new();
    let (mut si, mut ci) = (0usize, 0usize);
    for _ in 0..1000 {
        let a = op.action();
        out.push(a);
        let input = match a {
            Action::Finish(_) => return out,
            Action::ReadSr => {
                let v = sr[si.min(sr.len() - 1)];
                si += 1;
                v
            }
            Action::ReadCr => {
                let v = cr[ci.min(cr.len() - 1)];
                ci += 1;
                v
            }
            _ => 0xdead_beef,
        };
        op.step(input);
    }
    panic!("operation did not end");
}

#[test]
fn unlock_when_locked_writes_both_keys() {
    let acts = run(FlashOp::unlock(Family::C0), &[BSY, 0], &[0xC000_0000]);
    assert_eq!(
        acts,
        vec![
            Action::ReadSr,
            Action::ReadSr,
            Action::ReadCr,
            Action::WriteKeyr(KEY1),
            Action::WriteKeyr(KEY2),
            Action::Finish(Ok(())),
        ]
    );
    assert_eq!(KEY1, 0x4567_0123);
    assert_eq!(KEY2, 0xCDEF_89AB);
}

#[test]
fn unlock_when_unlocked_writes_nothing() {
    let acts = run(FlashOp::unlock(Family::C0), &[0], &[0x0000_0000]);
    assert_eq!(acts, vec![Action::ReadSr, Action::ReadCr, Action::Finish(Ok(()))]);
}

#[test]
fn unlock_waits_for_bsy2_on_g0() {
    // G0: each pass reads twice; BSY2 set in the second read keeps waiting
    let acts = run(FlashOp::unlock(Family::G0x1), &[BSY2, BSY2, 0], &[0]);
    assert_eq!(acts.iter().filter(|a| **a == Action::ReadSr).count(), 4);
    let acts = run(FlashOp::unlock(Family::C0), &[BSY2, BSY2, 0], &[0]);
    assert_eq!(acts.iter().filter(|a| **a == Action::ReadSr).count(), 1);
}

#[test]
fn g0_pass_tests_bsy_first_and_bsy2_second() {
    // BSY2 only in the first read, BSY only in the second: the pass ends the wait
    let acts = run(FlashOp::unlock(Family::G0x0), &[BSY2, BSY], &[0]);
    assert_eq!(acts, vec![Action::ReadSr, Action::ReadSr, Action::ReadCr, Action::Finish(Ok(()))]);
}

#[test]
fn wait_ready_reports_second_read() {
    let acts = run(FlashOp::wait_ready_blocking(Family::C0), &[BSY, BSY | 0x08, 0, 0x10], &[0]);
    assert_eq!(
        acts,
        vec![
            Action::ReadSr,
            Action::ReadSr,
            Action::ReadSr,
            Action::ReadSr,
            Action::Finish(Err(Error::Protected)),
        ]
    );
    let acts = run(FlashOp::wait_ready_blocking(Family::G0x0), &[BSY2, 0], &[0]);
    // the end wait looks at BSY only
    assert_eq!(acts, vec![Action::ReadSr, Action::ReadSr, Action::Finish(Ok(()))]);
}

#[test]
fn write_programs_two_words_then_waits() {
    let buf = [0x11u8, 0x22, 0x33, 0x44, 0x55, 0x66, 0x77, 0x88];
    let op = FlashOp::blocking_write(Family::C0, 0x0802_5000, &buf);
    let acts = run(op, &[BSY, 0, 0], &[0]);
    assert_eq!(
        acts,
        vec![
            Action::ProgramWord { address: 0x0802_5000, word: 0x4433_2211 },
            Action::ProgramWord { address: 0x0802_5004, word: 0x8877_6655 },
            Action::ReadSr,
            Action::ReadSr,
            Action::ReadSr,
            Action::Finish(Ok(())),
        ]
    );
}

#[test]
fn write_reports_alignment_error() {
    let op = FlashOp::blocking_write(Family::C0, 0x0802_0008, &[0; 8]);
    let acts = run(op, &[0, 0x20], &[0]);
    assert_eq!(*acts.last().unwrap(), Action::Finish(Err(Error::Unaligned)));
    assert_eq!(acts[1], Action::ProgramWord { address: 0x0802_000c, word: 0 });
}

#[test]
fn erase_full_sequence_from_locked() {
    let sector = FlashSector { start: 0x0802_5000, size: 2048 };
    let op = FlashOp::blocking_erase_sector(Family::C0, &sector);
    assert_eq!(op.phase, Phase::EraseIdleWait);
    // SR reads: idle wait (busy, idle), clear read (0xF8), unlock idle wait,
    // ready wait (busy, busy, idle), deciding read, final idle wait
    let sr = [BSY, 0, 0xF8, 0, BSY, BSY, 0, 0, 0];
    // CR reads: unlock check (locked), clear PER read, lock read
    let cr = [0xC000_0000, 0x0001_0252, 0x0000_0250];
    let acts = run(op, &sr, &cr);
    assert_eq!(
        acts,
        vec![
            Action::ReadSr,
            Action::ReadSr,
            Action::ReadSr,
            Action::WriteSr(0xF8),
            Action::ReadSr,
            Action::ReadCr,
            Action::WriteKeyr(KEY1),
            Action::WriteKeyr(KEY2),
            Action::WriteCrInterruptFree(0x0001_0252),
            Action::ReadSr,
            Action::ReadSr,
            Action::ReadSr,
            Action::ReadSr,
            Action::ReadCr,
            Action::WriteCr(0x0001_0250),
            Action::ReadCr,
            Action::WriteCr(0x8000_0250),
            Action::ReadSr,
            Action::Finish(Ok(())),
        ]
    );
}

#[test]
fn erase_from_unlocked_skips_keys_and_reports_error() {
    let sector = FlashSector { start: 0x0802_0000, size: 2048 };
    let op = FlashOp::blocking_erase_sector(Family::C0, &sector);
    let sr = [0, 0, 0, 0, 0x10, 0];
    let cr = [0, 0x0001_0202, 0];
    let acts = run(op, &sr, &cr);
    assert_eq!(
        acts,
        vec![
            Action::ReadSr,
            Action::ReadSr,
            Action::WriteSr(0),
            Action::ReadSr,
            Action::ReadCr,
            Action::WriteCrInterruptFree(0x0001_0202),
            Action::ReadSr,
            Action::ReadSr,
            Action::ReadCr,
            Action::WriteCr(0x0001_0200),
            Action::ReadCr,
            Action::WriteCr(0x8000_0000),
            Action::ReadSr,
            Action::Finish(Err(Error::Protected)),
        ]
    );
}

#[test]
fn erase_relocks_even_after_error() {
    let sector = FlashSector { start: 0x0800_0800, size: 2048 };
    let op = FlashOp::blocking_erase_sector(Family::G0x1, &sector);
    // G0 idle passes read twice
    let sr = [0, 0, 0, 0, 0, 0, 0x08, 0];
    let acts = run(op, &sr, &[0x8000_0000, 0x0001_000a, 0x0001_0008]);
    let start = acts.iter().position(|a| *a == Action::WriteCrInterruptFree(0x0001_000a)).unwrap();
    let lock = acts.iter().position(|a| *a == Action::WriteCr(0x8001_0008)).unwrap();
    assert!(start < lock);
    assert_eq!(*acts.last().unwrap(), Action::Finish(Err(Error::Prog)));
    assert_eq!(acts.iter().filter(|a| matches!(a, Action::WriteCrInterruptFree(_))).count(), 1);
}

#[test]
fn finished_operation_stays_finished() {
    let mut op = FlashOp::unlock(Family::C0);
    op.step(0);
    op.step(0);
    assert_eq!(op.phase, Phase::Finished);
    op.step(0x1234);
    assert_eq!(op.action(), Action::Finish(Ok(())));
}
