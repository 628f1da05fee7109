//! Verified register-level logic of the STM32 C0/G0/G4 flash controller driver:
//! the control and status register values that the driver writes and decodes,
//! and the command sequences (unlock, program, page erase) as state machines
//! whose register accesses are performed by the caller.

pub mod regs;
pub mod status;
pub mod control;
pub mod bank;
pub mod ops;
pub mod trace;
pub mod laws;
pub mod decisions;
