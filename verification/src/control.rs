use vstd::prelude::*;

use crate::regs::{
    CR_LOCK, CR_PER, CR_PG, CR_PNB_MASK, CR_PNB_SHIFT, CR_STRT, ERASE_SIZE, FLASH_BASE,
    WRITE_SIZE, WRITE_WORDS,
};

verus! {

/// Whether a control register value has LOCK set.
pub open spec fn spec_is_locked(cr: u32) -> bool {
    cr & CR_LOCK != 0
}

/// Control register value after setting LOCK in `cr`.
pub open spec fn spec_lock(cr: u32) -> u32 {
    cr | CR_LOCK
}

/// Control register value after clearing PER in `cr`.
pub open spec fn spec_clear_per(cr: u32) -> u32 {
    cr & !CR_PER
}

/// Index of the flash page that starts at `start`, counted from the flash base.
pub open spec fn spec_page_index(start: u32) -> int
    recommends
        start >= FLASH_BASE,
{
    (start - FLASH_BASE) / (ERASE_SIZE as int)
}

/// Control register value that starts the erase of page `idx`: PER, the page
/// number in PNB (bits 9:3, the index taken modulo 128) and STRT, nothing else.
pub open spec fn spec_erase_cr(idx: u32) -> u32 {
    CR_PER | ((idx & CR_PNB_MASK) << CR_PNB_SHIFT) | CR_STRT
}

/// The 32-bit word that the bytes `4 * i .. 4 * i + 4` of `data` form, least
/// significant byte first.
pub open spec fn spec_le_word(data: Seq<u8>, i: int) -> u32 {
    (data[4 * i] + 0x100 * data[4 * i + 1] + 0x1_0000 * data[4 * i + 2] + 0x100_0000 * data[4
        * i + 3]) as u32
}

/// Whether the control register value `cr` has LOCK set.
pub fn is_locked(cr: u32) -> (locked: bool)
    ensures
        locked == spec_is_locked(cr),
{
    cr & CR_LOCK != 0
}

/// The value that locking writes back to the control register read as `cr`:
/// the same value with LOCK set.
pub fn lock(cr: u32) -> (w: u32)
    ensures
        w == spec_lock(cr),
{
    cr | CR_LOCK
}

/// The value that ends a page erase writes back to the control register read
/// as `cr`: the same value with PER cleared.
pub fn clear_per(cr: u32) -> (w: u32)
    ensures
        w == spec_clear_per(cr),
{
    cr & !CR_PER
}

/// The value written to the control register to enable programming: PG alone.
pub fn enable_blocking_write() -> (w: u32)
    ensures
        w == CR_PG,
{
    assert(WRITE_SIZE % 4 == 0);
    CR_PG
}

/// The value written to the control register to disable programming: all bits clear.
pub fn disable_blocking_write() -> (w: u32)
    ensures
        w == 0,
{
    0
}

/// Index of the flash page that starts at `start`.
pub fn page_index(start: u32) -> (idx: u32)
    requires
        start >= FLASH_BASE,
    ensures
        idx == spec_page_index(start),
{
    (start - FLASH_BASE) / ERASE_SIZE
}

/// The control register value that starts the erase of the page at `start`.
pub fn erase_cr(start: u32) -> (w: u32)
    requires
        start >= FLASH_BASE,
    ensures
        w == spec_erase_cr(spec_page_index(start) as u32),
{
    let idx: u32 = page_index(start);
    CR_PER | ((idx & CR_PNB_MASK) << CR_PNB_SHIFT) | CR_STRT
}

/// Word `i` of a program buffer, least significant byte first.
pub fn program_word(buf: &[u8; WRITE_SIZE], i: usize) -> (w: u32)
    requires
        i < WRITE_WORDS,
    ensures
        w == spec_le_word(buf@, i as int),
{
    let k: usize = 4 * i;
    let b0: u8 = buf[k];
    let b1: u8 = buf[k + 1];
    let b2: u8 = buf[k + 2];
    let b3: u8 = buf[k + 3];
    let w: u32 = (b0 as u32) | ((b1 as u32) << 8u32) | ((b2 as u32) << 16u32) | ((b3 as u32)
        << 24u32);
    assert(w == b0 + 0x100 * b1 + 0x1_0000 * b2 + 0x100_0000 * b3) by (bit_vector)
        requires
            w == (b0 as u32) | ((b1 as u32) << 8u32) | ((b2 as u32) << 16u32) | ((b3 as u32)
                << 24u32),
    ;
    w
}

} // verus!
