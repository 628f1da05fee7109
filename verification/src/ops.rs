use vstd::prelude::*;

use crate::control::{
    clear_per, erase_cr, is_locked, lock, program_word, spec_clear_per, spec_erase_cr,
    spec_is_locked, spec_le_word, spec_lock, spec_page_index,
};
use crate::regs::{Family, FLASH_BASE, KEY1, KEY2, WRITE_SIZE, WRITE_WORDS};
use crate::status::{
    in_progress, second_read, spec_busy, spec_in_progress, spec_status, spec_two_reads, status_result,
    wait_busy, Error,
};

verus! {

/// A flash page, by its first address and its size in bytes.
#[derive(Clone, Copy, Debug, PartialEq, Eq, Structural)]
pub struct FlashSector {
    pub start: u32,
    pub size: u32,
}

/// One register access that a flash operation asks its caller to perform.
/// After a read the caller hands the value read to `FlashOp::step`; after a
/// write it hands any value, which is ignored.
#[derive(Clone, Copy, Debug, PartialEq, Eq)]
pub enum Action {
    /// Read FLASH_SR.
    ReadSr,
    /// Read FLASH_CR.
    ReadCr,
    /// Write the value to FLASH_SR.
    WriteSr(u32),
    /// Write the value to FLASH_CR.
    WriteCr(u32),
    /// Write the value to FLASH_CR with interrupts disabled.
    WriteCrInterruptFree(u32),
    /// Write the value to FLASH_KEYR.
    WriteKeyr(u32),
    /// Store `word` at the flash address `address`, then fence all memory accesses.
    ProgramWord { address: u32, word: u32 },
    /// The operation has ended with this outcome.
    Finish(Result<(), Error>),
}

/// Where a flash operation stands.
#[derive(Clone, Copy, Debug, PartialEq, Eq, Structural)]
pub enum Phase {
    /// Page erase: waiting for the controller to become idle.
    EraseIdleWait,
    /// Page erase: reading the status register to clear its error flags.
    EraseClearRead,
    /// Page erase: writing the status value back.
    EraseClearWrite,
    /// Page erase, unlocking: waiting for the controller to become idle.
    EraseUnlockWait,
    /// Page erase, unlocking: reading the control register.
    EraseUnlockCheck,
    /// Page erase, unlocking: writing the first key.
    EraseKey1,
    /// Page erase, unlocking: writing the second key.
    EraseKey2,
    /// Page erase: writing the erase command with interrupts disabled.
    EraseStart,
    /// Page erase: waiting for BSY to clear.
    EraseReadyWait,
    /// Page erase: reading the status register that decides the outcome.
    EraseReadySample,
    /// Page erase: reading the control register to clear PER.
    EraseClearPerRead,
    /// Page erase: writing the control register with PER cleared.
    EraseClearPerWrite,
    /// Page erase: reading the control register to lock it.
    EraseLockRead,
    /// Page erase: writing the control register with LOCK set.
    EraseLockWrite,
    /// Page erase: waiting for the controller to become idle again.
    EraseFinalWait,
    /// Unlock: waiting for the controller to become idle.
    UnlockWait,
    /// Unlock: reading the control register.
    UnlockCheck,
    /// Unlock: writing the first key.
    UnlockKey1,
    /// Unlock: writing the second key.
    UnlockKey2,
    /// Program: storing the word of the given index.
    Program(usize),
    /// Program: waiting for BSY to clear.
    WriteReadyWait,
    /// Program: reading the status register that decides the outcome.
    WriteReadySample,
    /// Wait for the end of an operation: waiting for BSY to clear.
    ReadyWait,
    /// Wait for the end of an operation: reading the deciding status register.
    ReadySample,
    /// The operation has ended.
    Finished,
}

/// A flash operation in progress: unlock, program, page erase or the wait
/// for the end of an operation.
#[derive(Clone, Copy, Debug)]
pub struct FlashOp {
    /// The controller variant, which decides how the idle wait reads BSY.
    pub family: Family,
    pub phase: Phase,
    /// The register value read last where a later write depends on it.
    pub last: u32,
    /// The erase command (page erase) or the first address written (program).
    pub target: u32,
    /// The bytes to program (program).
    pub data: [u8; WRITE_SIZE],
    /// The outcome reported once the operation ends.
    pub outcome: Result<(), Error>,
    /// Within a pass of an idle wait that reads the status register twice, the
    /// value of the first read once it has been made.
    pub polled: Option<u32>,
}

/// The phases in which the operation waits for the controller to become idle.
pub open spec fn idle_wait(p: Phase) -> bool {
    p == Phase::EraseIdleWait || p == Phase::EraseUnlockWait || p == Phase::EraseFinalWait || p
        == Phase::UnlockWait
}

impl FlashOp {
    /// The states that the constructors and `step` produce.
    pub open spec fn wf(self) -> bool {
        &&& match self.phase {
            Phase::Program(i) => i < WRITE_WORDS && self.target + WRITE_SIZE <= u32::MAX,
            _ => true,
        }
        &&& self.polled is Some ==> idle_wait(self.phase) && spec_two_reads(self.family)
    }

    /// Whether the status value `input`, read now in an idle wait, ends a pass
    /// that finds the controller idle: with two reads per pass, this is the second
    /// read, BSY was clear in the first and BSY2 is clear in this one; with one
    /// read, BSY is clear in it.
    pub open spec fn pass_idle(self, input: u32) -> bool {
        if spec_two_reads(self.family) {
            match self.polled {
                Some(first) => !spec_busy(self.family, first, input),
                None => false,
            }
        } else {
            !spec_busy(self.family, input, input)
        }
    }

    /// The state after the status value `input` was read in an idle wait that,
    /// once the controller is found idle, goes on to `next`.
    pub open spec fn idle_poll(self, input: u32, next: Phase) -> FlashOp {
        if spec_two_reads(self.family) && self.polled is None {
            FlashOp { polled: Some(input), ..self }
        } else if self.pass_idle(input) {
            FlashOp { phase: next, polled: None, ..self }
        } else {
            FlashOp { polled: None, ..self }
        }
    }

    /// The register access that the operation asks for in this state.
    pub open spec fn pending(self) -> Action {
        match self.phase {
            Phase::EraseIdleWait | Phase::EraseClearRead | Phase::EraseUnlockWait
            | Phase::EraseReadyWait | Phase::EraseReadySample | Phase::EraseFinalWait
            | Phase::UnlockWait | Phase::WriteReadyWait | Phase::WriteReadySample
            | Phase::ReadyWait | Phase::ReadySample => Action::ReadSr,
            Phase::EraseUnlockCheck | Phase::EraseClearPerRead | Phase::EraseLockRead
            | Phase::UnlockCheck => Action::ReadCr,
            Phase::EraseClearWrite => Action::WriteSr(self.last),
            Phase::EraseKey1 | Phase::UnlockKey1 => Action::WriteKeyr(KEY1),
            Phase::EraseKey2 | Phase::UnlockKey2 => Action::WriteKeyr(KEY2),
            Phase::EraseStart => Action::WriteCrInterruptFree(self.target),
            Phase::EraseClearPerWrite => Action::WriteCr(spec_clear_per(self.last)),
            Phase::EraseLockWrite => Action::WriteCr(spec_lock(self.last)),
            Phase::Program(i) => Action::ProgramWord {
                address: (self.target + 4 * i) as u32,
                word: spec_le_word(self.data@, i as int),
            },
            Phase::Finished => Action::Finish(self.outcome),
        }
    }

    /// The state with its phase replaced.
    pub open spec fn to(self, phase: Phase) -> FlashOp {
        FlashOp { phase, ..self }
    }

    /// The state that follows once the pending access has been performed and,
    /// for a read, returned `input`.
    pub open spec fn after(self, input: u32) -> FlashOp {
        match self.phase {
            Phase::EraseIdleWait => self.idle_poll(input, Phase::EraseClearRead),
            Phase::EraseClearRead => FlashOp { phase: Phase::EraseClearWrite, last: input, ..self },
            Phase::EraseClearWrite => self.to(Phase::EraseUnlockWait),
            Phase::EraseUnlockWait => self.idle_poll(input, Phase::EraseUnlockCheck),
            Phase::EraseUnlockCheck => if spec_is_locked(input) {
                self.to(Phase::EraseKey1)
            } else {
                self.to(Phase::EraseStart)
            },
            Phase::EraseKey1 => self.to(Phase::EraseKey2),
            Phase::EraseKey2 => self.to(Phase::EraseStart),
            Phase::EraseStart => self.to(Phase::EraseReadyWait),
            Phase::EraseReadyWait => if spec_in_progress(input) {
                self
            } else {
                self.to(Phase::EraseReadySample)
            },
            Phase::EraseReadySample => FlashOp {
                phase: Phase::EraseClearPerRead,
                outcome: spec_status(input),
                ..self
            },
            Phase::EraseClearPerRead => FlashOp {
                phase: Phase::EraseClearPerWrite,
                last: input,
                ..self
            },
            Phase::EraseClearPerWrite => self.to(Phase::EraseLockRead),
            Phase::EraseLockRead => FlashOp { phase: Phase::EraseLockWrite, last: input, ..self },
            Phase::EraseLockWrite => self.to(Phase::EraseFinalWait),
            Phase::EraseFinalWait => self.idle_poll(input, Phase::Finished),
            Phase::UnlockWait => self.idle_poll(input, Phase::UnlockCheck),
            Phase::UnlockCheck => if spec_is_locked(input) {
                self.to(Phase::UnlockKey1)
            } else {
                self.to(Phase::Finished)
            },
            Phase::UnlockKey1 => self.to(Phase::UnlockKey2),
            Phase::UnlockKey2 => self.to(Phase::Finished),
            Phase::Program(i) => if i + 1 < WRITE_WORDS {
                self.to(Phase::Program((i + 1) as usize))
            } else {
                self.to(Phase::WriteReadyWait)
            },
            Phase::WriteReadyWait => if spec_in_progress(input) {
                self
            } else {
                self.to(Phase::WriteReadySample)
            },
            Phase::WriteReadySample => FlashOp {
                phase: Phase::Finished,
                outcome: spec_status(input),
                ..self
            },
            Phase::ReadyWait => if spec_in_progress(input) {
                self
            } else {
                self.to(Phase::ReadySample)
            },
            Phase::ReadySample => FlashOp {
                phase: Phase::Finished,
                outcome: spec_status(input),
                ..self
            },
            Phase::Finished => self,
        }
    }

    /// Unlocking the control register: wait until the controller is idle, read
    /// FLASH_CR and, if LOCK is set, write the two keys in order.
    pub fn unlock(family: Family) -> (op: FlashOp)
        ensures
            op.wf(),
            op.family == family,
            op.phase == Phase::UnlockWait,
            op.outcome == Ok::<(), Error>(()),
            op.polled is None,
    {
        FlashOp {
            family,
            phase: Phase::UnlockWait,
            last: 0,
            target: 0,
            data: [0u8; 8],
            outcome: Ok(()),
            polled: None,
        }
    }

    /// Waiting for the end of a program or erase: poll until BSY clears, then
    /// read the status register once more and report what it holds.
    pub fn wait_ready_blocking(family: Family) -> (op: FlashOp)
        ensures
            op.wf(),
            op.family == family,
            op.phase == Phase::ReadyWait,
            op.outcome == Ok::<(), Error>(()),
            op.polled is None,
    {
        FlashOp {
            family,
            phase: Phase::ReadyWait,
            last: 0,
            target: 0,
            data: [0u8; 8],
            outcome: Ok(()),
            polled: None,
        }
    }

    /// Programming `buf` at `start_address`: store its words, least significant
    /// byte first, at consecutive word addresses, then wait for the end of the
    /// operation and report the status.
    pub fn blocking_write(family: Family, start_address: u32, buf: &[u8; WRITE_SIZE]) -> (op:
        FlashOp)
        requires
            start_address + WRITE_SIZE <= u32::MAX,
        ensures
            op.wf(),
            op.family == family,
            op.phase == Phase::Program(0),
            op.target == start_address,
            op.data@ == buf@,
            op.outcome == Ok::<(), Error>(()),
            op.polled is None,
    {
        FlashOp {
            family,
            phase: Phase::Program(0),
            last: 0,
            target: start_address,
            data: *buf,
            outcome: Ok(()),
            polled: None,
        }
    }

    /// Erasing the page `sector`: wait for idle, clear the error flags, unlock,
    /// start the erase with interrupts disabled, wait for the end, clear PER,
    /// lock, wait for idle, and report the status read at the end of the erase.
    pub fn blocking_erase_sector(family: Family, sector: &FlashSector) -> (op: FlashOp)
        requires
            sector.start >= FLASH_BASE,
        ensures
            op.wf(),
            op.family == family,
            op.phase == Phase::EraseIdleWait,
            op.target == spec_erase_cr(spec_page_index(sector.start) as u32),
            op.outcome == Ok::<(), Error>(()),
            op.polled is None,
    {
        FlashOp {
            family,
            phase: Phase::EraseIdleWait,
            last: 0,
            target: erase_cr(sector.start),
            data: [0u8; 8],
            outcome: Ok(()),
            polled: None,
        }
    }

    /// Takes the status value `input` read in an idle wait that goes on to `next`.
    fn poll_idle(&mut self, input: u32, next: Phase)
        requires
            old(self).wf(),
            idle_wait(old(self).phase),
            idle_wait(next) || next == Phase::Finished || next == Phase::EraseClearRead || next
                == Phase::EraseUnlockCheck || next == Phase::UnlockCheck,
        ensures
            *final(self) == old(self).idle_poll(input, next),
    {
        if second_read(self.family) {
            match self.polled {
                None => {
                    self.polled = Some(input);
                },
                Some(first) => {
                    if !wait_busy(self.family, first, input) {
                        self.phase = next;
                    }
                    self.polled = None;
                },
            }
        } else {
            if !wait_busy(self.family, input, input) {
                self.phase = next;
            }
        }
    }

    /// The register access that the operation asks for now.
    pub fn action(&self) -> (a: Action)
        requires
            self.wf(),
        ensures
            a == self.pending(),
    {
        match self.phase {
            Phase::EraseIdleWait | Phase::EraseClearRead | Phase::EraseUnlockWait
            | Phase::EraseReadyWait | Phase::EraseReadySample | Phase::EraseFinalWait
            | Phase::UnlockWait | Phase::WriteReadyWait | Phase::WriteReadySample
            | Phase::ReadyWait | Phase::ReadySample => Action::ReadSr,
            Phase::EraseUnlockCheck | Phase::EraseClearPerRead | Phase::EraseLockRead
            | Phase::UnlockCheck => Action::ReadCr,
            Phase::EraseClearWrite => Action::WriteSr(self.last),
            Phase::EraseKey1 | Phase::UnlockKey1 => Action::WriteKeyr(KEY1),
            Phase::EraseKey2 | Phase::UnlockKey2 => Action::WriteKeyr(KEY2),
            Phase::EraseStart => Action::WriteCrInterruptFree(self.target),
            Phase::EraseClearPerWrite => Action::WriteCr(clear_per(self.last)),
            Phase::EraseLockWrite => Action::WriteCr(lock(self.last)),
            Phase::Program(i) => {
                let address: u32 = self.target + 4 * (i as u32);
                Action::ProgramWord { address, word: program_word(&self.data, i) }
            },
            Phase::Finished => Action::Finish(self.outcome),
        }
    }

    /// Advances the operation once the pending access has been performed; `input`
    /// is the value read, and is ignored after a write.
    pub fn step(&mut self, input: u32)
        requires
            old(self).wf(),
        ensures
            *final(self) == old(self).after(input),
            final(self).wf(),
    {
        match self.phase {
            Phase::EraseIdleWait => {
                self.poll_idle(input, Phase::EraseClearRead);
            },
            Phase::EraseClearRead => {
                self.phase = Phase::EraseClearWrite;
                self.last = input;
            },
            Phase::EraseClearWrite => {
                self.phase = Phase::EraseUnlockWait;
            },
            Phase::EraseUnlockWait => {
                self.poll_idle(input, Phase::EraseUnlockCheck);
            },
            Phase::EraseUnlockCheck => {
                if is_locked(input) {
                    self.phase = Phase::EraseKey1;
                } else {
                    self.phase = Phase::EraseStart;
                }
            },
            Phase::EraseKey1 => {
                self.phase = Phase::EraseKey2;
            },
            Phase::EraseKey2 => {
                self.phase = Phase::EraseStart;
            },
            Phase::EraseStart => {
                self.phase = Phase::EraseReadyWait;
            },
            Phase::EraseReadyWait => {
                if !in_progress(input) {
                    self.phase = Phase::EraseReadySample;
                }
            },
            Phase::EraseReadySample => {
                self.phase = Phase::EraseClearPerRead;
                self.outcome = status_result(input);
            },
            Phase::EraseClearPerRead => {
                self.phase = Phase::EraseClearPerWrite;
                self.last = input;
            },
            Phase::EraseClearPerWrite => {
                self.phase = Phase::EraseLockRead;
            },
            Phase::EraseLockRead => {
                self.phase = Phase::EraseLockWrite;
                self.last = input;
            },
            Phase::EraseLockWrite => {
                self.phase = Phase::EraseFinalWait;
            },
            Phase::EraseFinalWait => {
                self.poll_idle(input, Phase::Finished);
            },
            Phase::UnlockWait => {
                self.poll_idle(input, Phase::UnlockCheck);
            },
            Phase::UnlockCheck => {
                if is_locked(input) {
                    self.phase = Phase::UnlockKey1;
                } else {
                    self.phase = Phase::Finished;
                }
            },
            Phase::UnlockKey1 => {
                self.phase = Phase::UnlockKey2;
            },
            Phase::UnlockKey2 => {
                self.phase = Phase::Finished;
            },
            Phase::Program(i) => {
                if i + 1 < WRITE_WORDS {
                    self.phase = Phase::Program(i + 1);
                } else {
                    self.phase = Phase::WriteReadyWait;
                }
            },
            Phase::WriteReadyWait => {
                if !in_progress(input) {
                    self.phase = Phase::WriteReadySample;
                }
            },
            Phase::WriteReadySample => {
                self.phase = Phase::Finished;
                self.outcome = status_result(input);
            },
            Phase::ReadyWait => {
                if !in_progress(input) {
                    self.phase = Phase::ReadySample;
                }
            },
            Phase::ReadySample => {
                self.phase = Phase::Finished;
                self.outcome = status_result(input);
            },
            Phase::Finished => {},
        }
    }
}

} // verus!
