use vstd::prelude::*;

use crate::regs::{Family, SR_BSY, SR_BSY2, SR_PGAERR, SR_PROGERR, SR_WRPERR};

verus! {

/// Errors reported by the flash controller at the end of an operation.
#[derive(Clone, Copy, Debug, PartialEq, Eq, Structural)]
pub enum Error {
    Prog,
    Protected,
    Unaligned,
}

/// The outcome that a status register value reports, errors taken in the
/// order programming, write protection, alignment.
pub open spec fn spec_status(sr: u32) -> Result<(), Error> {
    if sr & SR_PROGERR != 0 {
        Err(Error::Prog)
    } else if sr & SR_WRPERR != 0 {
        Err(Error::Protected)
    } else if sr & SR_PGAERR != 0 {
        Err(Error::Unaligned)
    } else {
        Ok(())
    }
}

/// Whether one pass of the idle wait of `family` reads the status register
/// twice: on G0x0 and G0x1 it reads it once for BSY and once more for BSY2.
pub open spec fn spec_two_reads(family: Family) -> bool {
    family == Family::G0x0 || family == Family::G0x1
}

/// Whether one pass of the idle wait finds the controller busy. `first` is the
/// status value read first in the pass, `second` the one read second; the second
/// read exists only where the family reads twice, and is ignored elsewhere. The
/// pass tests BSY in `first` and, where there are two reads, BSY2 in `second`.
pub open spec fn spec_busy(family: Family, first: u32, second: u32) -> bool {
    if spec_two_reads(family) {
        first & SR_BSY != 0 || second & SR_BSY2 != 0
    } else {
        first & SR_BSY != 0
    }
}

/// Whether the wait for the end of a program or erase keeps polling: BSY alone.
pub open spec fn spec_in_progress(sr: u32) -> bool {
    sr & SR_BSY != 0
}

/// Decodes the status register read once an operation has ended.
pub fn status_result(sr: u32) -> (r: Result<(), Error>)
    ensures
        r == spec_status(sr),
{
    if sr & SR_PROGERR != 0 {
        return Err(Error::Prog);
    }
    if sr & SR_WRPERR != 0 {
        return Err(Error::Protected);
    }
    if sr & SR_PGAERR != 0 {
        return Err(Error::Unaligned);
    }
    Ok(())
}

/// Whether a pass of the idle wait of `family` reads the status register a
/// second time (for BSY2).
pub fn second_read(family: Family) -> (two: bool)
    ensures
        two == spec_two_reads(family),
{
    match family {
        Family::G0x0 | Family::G0x1 => true,
        _ => false,
    }
}

/// The condition of one pass of the idle wait: true while the controller of
/// `family` reports itself busy, judged by BSY of the first status value read
/// in the pass and, on G0x0 and G0x1, by BSY2 of the second.
pub fn wait_busy(family: Family, first: u32, second: u32) -> (busy: bool)
    ensures
        busy == spec_busy(family, first, second),
{
    if second_read(family) {
        first & SR_BSY != 0 || second & SR_BSY2 != 0
    } else {
        first & SR_BSY != 0
    }
}

/// The condition of the wait for the end of an operation: true while BSY is set.
pub fn in_progress(sr: u32) -> (busy: bool)
    ensures
        busy == spec_in_progress(sr),
{
    sr & SR_BSY != 0
}

/// The value written back to the status register to clear its error flags:
/// the value read, so that every set write-1-to-clear flag is cleared.
pub fn clear_all_err(sr: u32) -> (w: u32)
    ensures
        w == sr,
{
    sr
}

} // verus!
