//! Runtime and peripheral-access layer for an Arm Cortex-M board: the boot
//! sequence, the GPIO pin type-state machine and the SysTick timer driver.
//!
//! Memory-mapped hardware is represented by a [`registers::RegisterFile`]: every
//! driver reads and writes its registers through it, so the effect of each
//! operation on the hardware is stated exactly in its contract.
pub mod boot;
pub mod peripherals;
