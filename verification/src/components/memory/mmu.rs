//! The MMU: wraps the bus, normalizes virtual addresses for the machine
//! width, and is the seam where virtual-to-physical translation is layered in.
//! With no paging, machine mode translates every address to itself.

use crate::components::bus::Bus;
use crate::components::cpu::{PrivilegeMode, Trap, Xlen};
use crate::components::memory::address::Addressable;
use crate::components::memory::rom::SIZE;
use crate::components::memory::Size;
use vstd::prelude::*;

verus! {

/// Memory-management unit: owns the bus and decides, per machine width and
/// privilege mode, which physical address a virtual address reaches.
pub struct MMU {
    bus: Bus,
    xlen: Xlen,
    pmode: PrivilegeMode,
}

impl MMU {
    /// The bus behind this MMU.
    pub closed spec fn spec_bus(&self) -> Bus {
        self.bus
    }

    /// The machine width addresses are normalized for.
    pub closed spec fn spec_xlen(&self) -> Xlen {
        self.xlen
    }

    /// The privilege mode accesses are made under.
    pub closed spec fn spec_pmode(&self) -> PrivilegeMode {
        self.pmode
    }

    /// The effective address of `addr`: in 32-bit mode the upper half is
    /// zeroed, in 64-bit mode the address passes through unchanged.
    pub open spec fn spec_effective_address(&self, addr: u64) -> u64 {
        match self.spec_xlen() {
            Xlen::Bit32 => addr & 0xffff_ffff,
            Xlen::Bit64 => addr,
        }
    }

    /// A fresh MMU over a fresh bus, in 64-bit machine mode.
    pub fn new() -> (r: MMU)
        ensures
            r.spec_xlen() == Xlen::Bit64,
            r.spec_pmode() == PrivilegeMode::Machine,
            r.spec_bus().spec_rom().mem().len() == SIZE,
            forall|i: int| 0 <= i < SIZE ==> r.spec_bus().spec_rom().mem()[i] == 0,
            r.spec_bus().spec_dram().mem().len() == crate::components::bus::DRAM_SIZE,
            forall|i: int|
                0 <= i < crate::components::bus::DRAM_SIZE ==> r.spec_bus().spec_dram().mem()[i]
                    == 0,
            r.spec_bus().spec_dram().spec_code_len() == 0,
    {
        MMU { bus: Bus::new(), xlen: Xlen::Bit64, pmode: PrivilegeMode::Machine }
    }

    /// Borrows the bus, for staging boot images into its devices.
    pub fn bus(&mut self) -> (r: &mut Bus)
        ensures
            *r == old(self).spec_bus(),
            final(self).spec_bus() == *final(r),
            final(self).spec_xlen() == old(self).spec_xlen(),
            final(self).spec_pmode() == old(self).spec_pmode(),
    {
        &mut self.bus
    }

    /// Updates the privilege mode of the MMU.
    pub fn set_privilege_mode(&mut self, mode: PrivilegeMode)
        ensures
            final(self).spec_pmode() == mode,
            final(self).spec_xlen() == old(self).spec_xlen(),
            final(self).spec_bus() == old(self).spec_bus(),
    {
        self.pmode = mode;
    }

    /// Gets the effective address from a given address. In the case that the
    /// MMU is running in 32-bit mode, the upper 32 bits of the address are
    /// zeroed.
    pub fn get_effective_address(&self, addr: u64) -> (r: u64)
        ensures
            r == self.spec_effective_address(addr),
    {
        match self.xlen {
            Xlen::Bit32 => addr & 0xffff_ffff,
            Xlen::Bit64 => addr,
        }
    }

    /// Translates a virtual address into a physical address. With paging
    /// absent, machine mode maps every address to itself; the other privilege
    /// modes are reserved for a future page-table walk.
    pub fn translate(&self, vaddr: u64) -> (r: u64)
        requires
            self.spec_pmode() == PrivilegeMode::Machine,
        ensures
            r == vaddr,
    {
        match self.pmode {
            PrivilegeMode::Machine => vaddr,
            _ => {
                proof {
                    assert(false);
                }
                vaddr
            },
        }
    }

    /// Determines if the given virtual address points to a valid physical
    /// address on some device, without performing the access or changing any
    /// state: the address is normalized and translated, and the bus is asked
    /// whether the ROM's or the DRAM's actual range holds the result.
    pub fn validate_address(&mut self, vaddr: u64) -> (r: Result<bool, Trap>)
        requires
            old(self).spec_pmode() == PrivilegeMode::Machine,
        ensures
            *final(self) == *old(self),
            r == Ok::<bool, Trap>(
                old(self).spec_bus().spec_contains(old(self).spec_effective_address(vaddr)),
            ),
    {
        let eaddr = self.get_effective_address(vaddr);
        let paddr = self.translate(eaddr);
        Ok(self.bus.contains(paddr))
    }

    /// Loads byte(s) from the device the virtual address reaches: the address
    /// is normalized, translated, and handed to the bus.
    pub fn load(&self, vaddr: u64, size: Size) -> (r: Result<u64, Trap>)
        requires
            self.spec_pmode() == PrivilegeMode::Machine,
        ensures
            r == self.spec_bus().spec_read(self.spec_effective_address(vaddr), size),
    {
        let eaddr = self.get_effective_address(vaddr);
        let paddr = self.translate(eaddr);
        self.bus.read(paddr, size)
    }

    /// Stores byte(s) to the device the virtual address reaches: the address
    /// is normalized, translated, and handed to the bus.
    pub fn store(&mut self, vaddr: u64, size: Size, data: Vec<u8>) -> (r: Result<(), Trap>)
        requires
            old(self).spec_pmode() == PrivilegeMode::Machine,
            data@.len() == size.spec_bytes(),
        ensures
            Bus::spec_write_post(
                old(self).spec_bus(),
                final(self).spec_bus(),
                old(self).spec_effective_address(vaddr),
                size,
                data@,
                r,
            ),
            final(self).spec_xlen() == old(self).spec_xlen(),
            final(self).spec_pmode() == old(self).spec_pmode(),
    {
        let eaddr = self.get_effective_address(vaddr);
        let paddr = self.translate(eaddr);
        self.bus.write(paddr, size, data)
    }
}

/// Byte-order round trip through the whole memory stack: after a store of
/// `data` at a virtual address succeeded, a load of the same address and size
/// returns exactly the little-endian reconstruction of `data`.
pub proof fn lemma_store_load_round_trip(
    pre: MMU,
    post: MMU,
    vaddr: u64,
    size: Size,
    data: Seq<u8>,
)
    requires
        data.len() == size.spec_bytes(),
        post.spec_xlen() == pre.spec_xlen(),
        Bus::spec_write_post(
            pre.spec_bus(),
            post.spec_bus(),
            pre.spec_effective_address(vaddr),
            size,
            data,
            Ok(()),
        ),
    ensures
        post.spec_bus().spec_read(post.spec_effective_address(vaddr), size) == Ok::<u64, Trap>(
            crate::components::memory::le_value(data) as u64,
        ),
{
    crate::components::bus::lemma_bus_write_read_round_trip(
        pre.spec_bus(),
        post.spec_bus(),
        pre.spec_effective_address(vaddr),
        size,
        data,
    );
}

} // verus!
