//! Core of a RISC-V (RV64IM) hardware emulator: an instruction decoder that
//! recovers a typed instruction from a raw 32-bit word, and a memory/address
//! subsystem (bus, MMU, ROM, DRAM, register files) that routes byte-addressed
//! accesses to the correct backing device and reports violations as traps.

pub mod components;
pub mod isa;
pub mod util;
