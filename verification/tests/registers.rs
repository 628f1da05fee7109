use stm32_flash::bank::{check_bank_setup, BankConfig, BankField, BankSetupError};
use stm32_flash::control::{
    clear_per, disable_blocking_write, enable_blocking_write, erase_cr, is_locked, lock,
    page_index, program_word,
};
use stm32_flash::regs::{Family, CR_LOCK, CR_PER, CR_PG, FLASH_BASE};
use stm32_flash::status::{
    clear_all_err, in_progress, second_read, status_result, wait_busy, Error,
};

const SINGLE: BankConfig = BankConfig { single_bank: true, dual_bank: false };
const DUAL: BankConfig = BankConfig { single_bank: false, dual_bank: true };
const NONE: BankConfig = BankConfig { single_bank: false, dual_bank: false };
const BOTH: BankConfig = BankConfig { single_bank: true, dual_bank: true };

#[test]
fn status_ok_when_no_error_flag() {
    assert_eq!(status_result(0), Ok(()));
    // EOP, OPERR, BSY, BSY2 and CFGBSY do not make an error
    assert_eq!(status_result(0x0007_0003), Ok(()));
}

#[test]
fn status_reports_each_error() {
    assert_eq!(status_result(0x08), Err(Error::Prog));
    assert_eq!(status_result(0x10), Err(Error::Protected));
    assert_eq!(status_result(0x20), Err(Error::Unaligned));
}

#[test]
fn status_error_precedence() {
    assert_eq!(status_result(0x38), Err(Error::Prog));
    assert_eq!(status_result(0x30), Err(Error::Protected));
    assert_eq!(status_result(0x28), Err(Error::Prog));
}

#[test]
fn idle_wait_per_family() {
    let bsy = 0x0001_0000u32;
    let bsy2 = 0x0002_0000u32;
    for f in [Family::C0, Family::G0x0, Family::G0x1, Family::G4] {
        assert!(wait_busy(f, bsy, 0));
        assert!(!wait_busy(f, 0, 0));
    }
    assert!(!second_read(Family::C0));
    assert!(!second_read(Family::G4));
    assert!(second_read(Family::G0x0));
    assert!(second_read(Family::G0x1));
    // one read: BSY of it alone
    assert!(!wait_busy(Family::C0, bsy2, bsy2));
    assert!(!wait_busy(Family::G4, bsy2, bsy));
    // two reads: BSY of the first, BSY2 of the second
    assert!(wait_busy(Family::G0x0, 0, bsy2));
    assert!(wait_busy(Family::G0x1, bsy, 0));
    assert!(!wait_busy(Family::G0x1, bsy2, bsy));
    assert!(!wait_busy(Family::G0x0, bsy2, 0));
}

#[test]
fn end_wait_reads_bsy_only() {
    assert!(in_progress(0x0001_0000));
    assert!(!in_progress(0x0002_0000));
    assert!(!in_progress(0x38));
}

#[test]
fn clear_all_err_writes_back_value_read() {
    assert_eq!(clear_all_err(0x0000_00f8), 0x0000_00f8);
    assert_eq!(clear_all_err(0), 0);
}

#[test]
fn lock_sets_lock_bit_only() {
    assert_eq!(lock(0), CR_LOCK);
    assert_eq!(lock(0x0000_0003), 0x8000_0003);
    assert_eq!(lock(0xC000_0000), 0xC000_0000);
    assert!(is_locked(lock(0x1234)));
    assert!(!is_locked(0x4000_0000));
    assert!(is_locked(0xC000_0000));
}

#[test]
fn clear_per_clears_per_only() {
    assert_eq!(clear_per(0x0001_0252), 0x0001_0250);
    assert_eq!(clear_per(0x8000_0000), 0x8000_0000);
    assert_eq!(clear_per(CR_PER), 0);
}

#[test]
fn program_enable_and_disable_values() {
    assert_eq!(enable_blocking_write(), CR_PG);
    assert_eq!(enable_blocking_write(), 1);
    assert_eq!(disable_blocking_write(), 0);
}

#[test]
fn page_index_of_dfu_pages() {
    assert_eq!(page_index(FLASH_BASE), 0);
    assert_eq!(page_index(0x0802_0000), 64);
    assert_eq!(page_index(0x0802_5000), 74);
    assert_eq!(page_index(0x0802_57ff), 74);
    assert_eq!(page_index(0x0803_f800), 127);
}

#[test]
fn erase_command_values() {
    // PER | PNB << 3 | STRT
    assert_eq!(erase_cr(0x0800_0000), 0x0001_0002);
    assert_eq!(erase_cr(0x0802_0000), 0x0001_0202);
    assert_eq!(erase_cr(0x0802_5000), 0x0001_0252);
    assert_eq!(erase_cr(0x0803_f800), 0x0001_03fa);
    // page 133 wraps to 5 in the seven-bit field
    assert_eq!(erase_cr(FLASH_BASE + 133 * 2048), 0x0001_002a);
    for page in 0u32..128 {
        let v = erase_cr(FLASH_BASE + page * 2048);
        assert_eq!((v >> 3) & 0x7f, page);
        assert_eq!(v & !(0x0001_0002 | 0x3f8), 0);
    }
}

#[test]
fn program_words_little_endian() {
    let buf = [1u8, 2, 3, 4, 5, 6, 7, 8];
    assert_eq!(program_word(&buf, 0), 0x0403_0201);
    assert_eq!(program_word(&buf, 1), 0x0807_0605);
    let w = program_word(&[0xab, 0xcd, 0xef, 0x12, 0, 0, 0, 0xff], 0);
    assert_eq!(w.to_le_bytes(), [0xab, 0xcd, 0xef, 0x12]);
    assert_eq!(program_word(&[0, 0, 0, 0, 0, 0, 0, 0xff], 1), 0xff00_0000);
}

#[test]
fn bank_setup_g4() {
    let dbank = 0x0040_0000u32;
    assert_eq!(check_bank_setup(Family::G4, SINGLE, 0), Ok(()));
    assert_eq!(
        check_bank_setup(Family::G4, SINGLE, dbank),
        Err(BankSetupError::HardwareDualBank(BankField::Dbank))
    );
    assert_eq!(check_bank_setup(Family::G4, DUAL, dbank), Ok(()));
    assert_eq!(
        check_bank_setup(Family::G4, DUAL, 0),
        Err(BankSetupError::HardwareSingleBank(BankField::Dbank))
    );
    assert_eq!(check_bank_setup(Family::G4, NONE, dbank), Ok(()));
    // bit 21 is not DBANK on G4
    assert_eq!(check_bank_setup(Family::G4, DUAL, 0x0020_0000).is_err(), true);
}

#[test]
fn bank_setup_g0x1() {
    let dual = 0x0020_0000u32;
    assert_eq!(
        check_bank_setup(Family::G0x1, SINGLE, dual),
        Err(BankSetupError::HardwareDualBank(BankField::DualBank))
    );
    assert_eq!(
        check_bank_setup(Family::G0x1, DUAL, 0),
        Err(BankSetupError::HardwareSingleBank(BankField::DualBank))
    );
    assert_eq!(check_bank_setup(Family::G0x1, DUAL, dual), Ok(()));
    assert_eq!(check_bank_setup(Family::G0x1, SINGLE, 0), Ok(()));
}

#[test]
fn bank_setup_not_configurable() {
    for f in [Family::C0, Family::G0x0] {
        assert_eq!(check_bank_setup(f, SINGLE, 0xffff_ffff), Ok(()));
        assert_eq!(check_bank_setup(f, DUAL, 0), Ok(()));
    }
}

#[test]
fn bank_setup_both_selected_always_fails() {
    assert_eq!(
        check_bank_setup(Family::G4, BOTH, 0x0040_0000),
        Err(BankSetupError::HardwareDualBank(BankField::Dbank))
    );
    assert_eq!(
        check_bank_setup(Family::G4, BOTH, 0),
        Err(BankSetupError::HardwareSingleBank(BankField::Dbank))
    );
    assert_eq!(
        check_bank_setup(Family::G0x1, BOTH, 0x0020_0000),
        Err(BankSetupError::HardwareDualBank(BankField::DualBank))
    );
    assert_eq!(check_bank_setup(Family::C0, BOTH, 0), Ok(()));
}

#[test]
fn bank_setup_messages() {
    let m = BankSetupError::HardwareDualBank(BankField::Dbank).message();
    assert_eq!(
        m,
        "Embassy is configured as single-bank, but the hardware is running in dual-bank mode. Change the hardware by changing the dbank value in the user option bytes or configure embassy to use dual-bank config"
    );
    assert!(m.contains("single-bank, but the hardware is running in dual-bank mode"));
    assert!(m.contains("dbank value"));
    let m = BankSetupError::HardwareSingleBank(BankField::DualBank).message();
    assert!(m.contains("dual-bank, but the hardware is running in single-bank mode"));
    assert!(m.contains("dual_bank value"));
    assert!(m.ends_with("use single-bank config"));
}
