//! Kernel-side logic of a small x86_64 UEFI kernel that hosts WebAssembly
//! programs: interrupt routing, the serial log slot, memory-map claiming,
//! host functions offered to the guest, and the emulator launch line.
pub mod exec;
pub mod guest;
pub mod interrupts;
pub mod log;
pub mod memory;
pub mod processor;
pub mod runner;
pub mod shell;
