//! Hardware components of the emulated machine: the system bus, the memory
//! devices behind it, and the register files.

pub mod bus;
pub mod cpu;
pub mod memory;
pub mod ram;
pub mod regfile;

pub use bus::Bus;
