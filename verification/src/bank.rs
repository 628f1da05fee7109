use vstd::prelude::*;

use crate::regs::{Family, OPTR_DBANK, OPTR_DUAL_BANK};

verus! {

/// The bank organisation that the build was configured for: whether single-bank
/// and whether dual-bank mode was selected (either, neither or both).
#[derive(Clone, Copy, Debug, PartialEq, Eq, Structural)]
pub struct BankConfig {
    pub single_bank: bool,
    pub dual_bank: bool,
}

/// The option-byte field that selects the bank organisation.
#[derive(Clone, Copy, Debug, PartialEq, Eq, Structural)]
pub enum BankField {
    /// FLASH_OPTR.DBANK (G4).
    Dbank,
    /// FLASH_OPTR.DUAL_BANK (G0x1).
    DualBank,
}

/// A mismatch between the configured and the actual bank organisation.
#[derive(Clone, Copy, Debug, PartialEq, Eq, Structural)]
pub enum BankSetupError {
    /// Configured single-bank, but the option bytes select dual-bank mode.
    HardwareDualBank(BankField),
    /// Configured dual-bank, but the option bytes select single-bank mode.
    HardwareSingleBank(BankField),
}

/// The option-byte field of `family` that selects dual-bank mode, if the
/// family's bank setup is configurable.
pub open spec fn spec_bank_field(family: Family) -> Option<BankField> {
    match family {
        Family::G4 => Some(BankField::Dbank),
        Family::G0x1 => Some(BankField::DualBank),
        _ => None,
    }
}

/// Whether the option register value `optr` has `field` set.
pub open spec fn spec_field_set(field: BankField, optr: u32) -> bool {
    match field {
        BankField::Dbank => optr & OPTR_DBANK != 0,
        BankField::DualBank => optr & OPTR_DUAL_BANK != 0,
    }
}

/// The outcome of the bank setup check for a family, a configuration and the
/// option register value.
pub open spec fn spec_check_bank_setup(family: Family, config: BankConfig, optr: u32) -> Result<
    (),
    BankSetupError,
> {
    match spec_bank_field(family) {
        None => Ok(()),
        Some(field) => {
            let dual = spec_field_set(field, optr);
            if config.single_bank && dual {
                Err(BankSetupError::HardwareDualBank(field))
            } else if config.dual_bank && !dual {
                Err(BankSetupError::HardwareSingleBank(field))
            } else {
                Ok(())
            }
        },
    }
}

/// The option-byte field of `family` that selects dual-bank mode, or `None`
/// where the bank setup is not configurable.
pub fn bank_field(family: Family) -> (f: Option<BankField>)
    ensures
        f == spec_bank_field(family),
{
    match family {
        Family::G4 => Some(BankField::Dbank),
        Family::G0x1 => Some(BankField::DualBank),
        _ => None,
    }
}

/// Checks the configured bank organisation against the option register value
/// `optr` read from the hardware.
pub fn check_bank_setup(family: Family, config: BankConfig, optr: u32) -> (r: Result<
    (),
    BankSetupError,
>)
    ensures
        r == spec_check_bank_setup(family, config, optr),
{
    match bank_field(family) {
        None => Ok(()),
        Some(field) => {
            let dual: bool = match field {
                BankField::Dbank => optr & OPTR_DBANK != 0,
                BankField::DualBank => optr & OPTR_DUAL_BANK != 0,
            };
            if config.single_bank && dual {
                Err(BankSetupError::HardwareDualBank(field))
            } else if config.dual_bank && !dual {
                Err(BankSetupError::HardwareSingleBank(field))
            } else {
                Ok(())
            }
        },
    }
}

impl BankSetupError {
    /// The text with which a mismatch is reported.
    pub fn message(&self) -> (m: &'static str)
        ensures
            m@ == (match *self {
                BankSetupError::HardwareDualBank(BankField::Dbank) =>
                    "Embassy is configured as single-bank, but the hardware is running in dual-bank mode. Change the hardware by changing the dbank value in the user option bytes or configure embassy to use dual-bank config"@,
                BankSetupError::HardwareSingleBank(BankField::Dbank) =>
                    "Embassy is configured as dual-bank, but the hardware is running in single-bank mode. Change the hardware by changing the dbank value in the user option bytes or configure embassy to use single-bank config"@,
                BankSetupError::HardwareDualBank(BankField::DualBank) =>
                    "Embassy is configured as single-bank, but the hardware is running in dual-bank mode. Change the hardware by changing the dual_bank value in the user option bytes or configure embassy to use dual-bank config"@,
                BankSetupError::HardwareSingleBank(BankField::DualBank) =>
                    "Embassy is configured as dual-bank, but the hardware is running in single-bank mode. Change the hardware by changing the dual_bank value in the user option bytes or configure embassy to use single-bank config"@,
            }),
    {
        match *self {
            BankSetupError::HardwareDualBank(BankField::Dbank) =>
                "Embassy is configured as single-bank, but the hardware is running in dual-bank mode. Change the hardware by changing the dbank value in the user option bytes or configure embassy to use dual-bank config",
            BankSetupError::HardwareSingleBank(BankField::Dbank) =>
                "Embassy is configured as dual-bank, but the hardware is running in single-bank mode. Change the hardware by changing the dbank value in the user option bytes or configure embassy to use single-bank config",
            BankSetupError::HardwareDualBank(BankField::DualBank) =>
                "Embassy is configured as single-bank, but the hardware is running in dual-bank mode. Change the hardware by changing the dual_bank value in the user option bytes or configure embassy to use dual-bank config",
            BankSetupError::HardwareSingleBank(BankField::DualBank) =>
                "Embassy is configured as dual-bank, but the hardware is running in single-bank mode. Change the hardware by changing the dual_bank value in the user option bytes or configure embassy to use single-bank config",
        }
    }
}

} // verus!
