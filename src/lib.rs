//! Early boot core of a 64-bit kernel: boot-information regions, descriptor
//! table construction, the task state used for fatal faults, and the
//! interrupt vector table, each stated and proved over plain values.
pub mod boot;
pub mod exceptions;
pub mod gdt;
pub mod idt;
