use vstd::prelude::*;

verus! {

/// First address of the main flash memory.
pub const FLASH_BASE: u32 = 0x0800_0000;

/// Size in bytes of one erasable flash page.
pub const ERASE_SIZE: u32 = 2048;

/// Number of bytes written by one program operation (one double word).
pub const WRITE_SIZE: usize = 8;

/// Number of 32-bit words in one program operation.
pub const WRITE_WORDS: usize = 2;

/// First key of the unlock sequence written to FLASH_KEYR.
pub const KEY1: u32 = 0x4567_0123;

/// Second key of the unlock sequence written to FLASH_KEYR.
pub const KEY2: u32 = 0xCDEF_89AB;

/// FLASH_CR.PG: programming enabled.
pub const CR_PG: u32 = 0x0000_0001;

/// FLASH_CR.PER: page erase selected.
pub const CR_PER: u32 = 0x0000_0002;

/// Position of the page number field FLASH_CR.PNB (bits 9:3).
pub const CR_PNB_SHIFT: u32 = 3;

/// Width mask of the page number field FLASH_CR.PNB (seven bits).
pub const CR_PNB_MASK: u32 = 0x7F;

/// FLASH_CR.STRT: start the selected erase.
pub const CR_STRT: u32 = 0x0001_0000;

/// FLASH_CR.LOCK: control register locked.
pub const CR_LOCK: u32 = 0x8000_0000;

/// FLASH_SR.PROGERR: programming error.
pub const SR_PROGERR: u32 = 0x0000_0008;

/// FLASH_SR.WRPERR: write protection error.
pub const SR_WRPERR: u32 = 0x0000_0010;

/// FLASH_SR.PGAERR: programming alignment error.
pub const SR_PGAERR: u32 = 0x0000_0020;

/// FLASH_SR.BSY (BSY1): an operation is in progress.
pub const SR_BSY: u32 = 0x0001_0000;

/// FLASH_SR.BSY2: an operation is in progress on the second bank (G0x0, G0x1).
pub const SR_BSY2: u32 = 0x0002_0000;

/// FLASH_OPTR.DUAL_BANK of the G0x1 parts.
pub const OPTR_DUAL_BANK: u32 = 0x0020_0000;

/// FLASH_OPTR.DBANK of the G4 (category 2, 3 and 4) parts.
pub const OPTR_DBANK: u32 = 0x0040_0000;

/// The flash controller variants that share this driver.
#[derive(Clone, Copy, Debug, PartialEq, Eq, Structural)]
pub enum Family {
    C0,
    G0x0,
    G0x1,
    G4,
}

} // verus!
