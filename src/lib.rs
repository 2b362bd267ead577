//! Trap dispatch and register access for an early-boot RISC-V kernel.
//!
//! The library holds the logic: the typed CSR accessor layer, the trap-cause
//! catalog and its classification, the millisecond clock, the diagnostic line
//! format, the dispatcher's decisions, the termination report and the UART
//! transmit queue. Reading CSRs, touching MMIO and halting the hart are left
//! to the caller.

pub mod boot;
pub mod dispatch;
pub mod fatal;
pub mod logger;
pub mod registers;
pub mod text;
pub mod traps;
pub mod uart;
