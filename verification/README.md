# stm32_flash

Verified logic of the STM32 C0/G0/G4 flash controller driver.

- `src/regs.rs`: register bit layout, unlock keys and flash geometry.
- `src/status.rs`: decoding of FLASH_SR (outcome, idle wait, end-of-operation wait).
- `src/control.rs`: FLASH_CR values (lock, PER clear, program enable, page erase command)
  and the little-endian words of a program buffer.
- `src/bank.rs`: the single/dual-bank option-byte check.
- `src/ops.rs`: unlock, program, page erase and end-of-operation wait as state machines
  that ask their caller for one register access at a time.
- `src/trace.rs`, `src/laws.rs`: runs of those machines and the properties proved of them.
- `app/`: performs the register accesses on the hardware (volatile reads and writes,
  fences, interrupt masking).
