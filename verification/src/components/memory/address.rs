//! The capability every memory-space participant offers: range membership,
//! size, and fallible reads and writes. The bus talks to its devices, and the
//! MMU to the bus, only through this interface.

use crate::components::cpu::Trap;
use crate::components::memory::Size;
use vstd::prelude::*;

verus! {

/// Read and write bytes in a 64-bit address space. Each implementor pins its
/// exact behaviour down through its own definitions of the `spec_` functions;
/// the method contracts then hold word for word of every device.
pub trait Addressable: Sized {
    /// Whether `addr` belongs to this device's address range.
    spec fn spec_contains(&self, addr: u64) -> bool;

    /// The number of addresses this device reports.
    spec fn spec_size(&self) -> u64;

    /// The exact outcome of reading `size` bytes at `addr`.
    spec fn spec_read(&self, addr: u64, size: Size) -> Result<u64, Trap>;

    /// The exact relation between the device before (`pre`) and after (`post`)
    /// a write of `data` at `addr`, and the write's outcome `r`.
    spec fn spec_write_post(
        pre: Self,
        post: Self,
        addr: u64,
        size: Size,
        data: Seq<u8>,
        r: Result<(), Trap>,
    ) -> bool;

    /// Indicates if the given address belongs to the address space.
    fn contains(&self, addr: u64) -> (r: bool)
        ensures
            r == self.spec_contains(addr),
    ;

    /// The number of addresses in the address space.
    fn size(&self) -> (r: u64)
        ensures
            r == self.spec_size(),
    ;

    /// Returns the value stored at the given address.
    fn read(&self, addr: u64, size: Size) -> (r: Result<u64, Trap>)
        ensures
            r == self.spec_read(addr, size),
    ;

    /// Attempts to store the given value at the given address. The buffer's
    /// length must equal the access size: that is a caller precondition, not a
    /// recoverable error.
    fn write(&mut self, addr: u64, size: Size, data: Vec<u8>) -> (r: Result<(), Trap>)
        requires
            data@.len() == size.spec_bytes(),
        ensures
            Self::spec_write_post(*old(self), *final(self), addr, size, data@, r),
    ;
}

} // verus!
