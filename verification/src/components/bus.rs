//! The system bus: owns the ROM and the DRAM and routes every address to
//! exactly one of them by a fixed two-way partition of the address space.

use crate::components::cpu::Trap;
use crate::components::memory::address::Addressable;
use crate::components::memory::dram::DRAM;
use crate::components::memory::rom::{ROM, SIZE};
use crate::components::memory::Size;
use vstd::prelude::*;

verus! {

/// The address at which the ROM starts.
pub const ROM_BASE: u64 = 0x1000;

/// The address at which the ROM ends.
pub const ROM_END: u64 = ROM_BASE + 0xf000;

/// The address at which the DRAM starts.
pub const DRAM_BASE: u64 = 0x8000_0000;

/// The number of bytes of DRAM the bus is built with.
pub const DRAM_SIZE: usize = 1024 * 1024 * 1024;

/// Routes each address either to the ROM range `[ROM_BASE, ROM_END)` or, for
/// every other address, to the DRAM, whose own bounds check then faults on
/// addresses no device backs.
#[derive(Debug)]
pub struct Bus {
    rom: ROM,
    dram: DRAM,
}

impl Bus {
    /// The bus's ROM device.
    pub closed spec fn spec_rom(&self) -> ROM {
        self.rom
    }

    /// The bus's DRAM device.
    pub closed spec fn spec_dram(&self) -> DRAM {
        self.dram
    }

    /// A fresh bus: a zeroed ROM and a zeroed DRAM of `DRAM_SIZE` bytes.
    pub fn new() -> (r: Bus)
        ensures
            r.spec_rom().mem().len() == SIZE,
            forall|i: int| 0 <= i < SIZE ==> r.spec_rom().mem()[i] == 0,
            r.spec_dram().mem().len() == DRAM_SIZE,
            forall|i: int| 0 <= i < DRAM_SIZE ==> r.spec_dram().mem()[i] == 0,
            r.spec_dram().spec_code_len() == 0,
    {
        Bus { rom: ROM::new(), dram: DRAM::new(DRAM_SIZE) }
    }

    /// Borrows the ROM device, for image loading at boot.
    pub fn rom(&mut self) -> (r: &mut ROM)
        ensures
            *r == old(self).spec_rom(),
            final(self).spec_rom() == *final(r),
            final(self).spec_dram() == old(self).spec_dram(),
    {
        &mut self.rom
    }

    /// Borrows the DRAM device, for image loading at boot.
    pub fn dram(&mut self) -> (r: &mut DRAM)
        ensures
            *r == old(self).spec_dram(),
            final(self).spec_dram() == *final(r),
            final(self).spec_rom() == old(self).spec_rom(),
    {
        &mut self.dram
    }
}

impl Addressable for Bus {
    open spec fn spec_contains(&self, addr: u64) -> bool {
        self.spec_rom().spec_contains(addr) || self.spec_dram().spec_contains(addr)
    }

    open spec fn spec_size(&self) -> u64 {
        u64::MAX
    }

    open spec fn spec_read(&self, addr: u64, size: Size) -> Result<u64, Trap> {
        if ROM_BASE <= addr < ROM_END {
            self.spec_rom().spec_read(addr, size)
        } else {
            self.spec_dram().spec_read(addr, size)
        }
    }

    open spec fn spec_write_post(
        pre: Bus,
        post: Bus,
        addr: u64,
        size: Size,
        data: Seq<u8>,
        r: Result<(), Trap>,
    ) -> bool {
        if ROM_BASE <= addr < ROM_END {
            &&& ROM::spec_write_post(pre.spec_rom(), post.spec_rom(), addr, size, data, r)
            &&& post.spec_dram() == pre.spec_dram()
        } else {
            &&& DRAM::spec_write_post(pre.spec_dram(), post.spec_dram(), addr, size, data, r)
            &&& post.spec_rom() == pre.spec_rom()
        }
    }

    fn contains(&self, addr: u64) -> (r: bool) {
        self.rom.contains(addr) || self.dram.contains(addr)
    }

    /// The bus is a router over the whole 64-bit space, not a single buffer,
    /// so it reports the maximum representable extent.
    fn size(&self) -> (r: u64) {
        u64::MAX
    }

    fn read(&self, addr: u64, size: Size) -> (r: Result<u64, Trap>) {
        if ROM_BASE <= addr && addr < ROM_END {
            self.rom.read(addr, size)
        } else {
            self.dram.read(addr, size)
        }
    }

    fn write(&mut self, addr: u64, size: Size, data: Vec<u8>) -> (r: Result<(), Trap>) {
        if ROM_BASE <= addr && addr < ROM_END {
            self.rom.write(addr, size, data)
        } else {
            self.dram.write(addr, size, data)
        }
    }
}

/// Routing: a read at an address inside the ROM range is served by the ROM
/// alone. Two buses whose ROMs are equal return the same result there,
/// whatever their DRAMs hold.
pub proof fn lemma_rom_range_routes_to_rom(a: Bus, b: Bus, addr: u64, size: Size)
    requires
        ROM_BASE <= addr < ROM_END,
        a.spec_rom() == b.spec_rom(),
    ensures
        a.spec_read(addr, size) == b.spec_read(addr, size),
{
}

/// Byte-order round trip through the bus: a write of `data` that succeeded
/// makes a read of the same window return exactly the little-endian
/// reconstruction of `data`. (A successful write always went to the DRAM: the
/// ROM rejects every write.)
pub proof fn lemma_bus_write_read_round_trip(
    pre: Bus,
    post: Bus,
    addr: u64,
    size: Size,
    data: Seq<u8>,
)
    requires
        data.len() == size.spec_bytes(),
        Bus::spec_write_post(pre, post, addr, size, data, Ok(())),
    ensures
        post.spec_read(addr, size) == Ok::<u64, crate::components::cpu::Trap>(
            crate::components::memory::le_value(data) as u64,
        ),
{
    crate::components::memory::dram::lemma_write_read_round_trip(
        pre.spec_dram(),
        post.spec_dram(),
        addr,
        size,
        data,
    );
}

/// An address below the DRAM base and outside the ROM range belongs to no
/// device: the bus hands it to the DRAM, whose own bounds check faults.
pub proof fn lemma_unmapped_read_faults(bus: Bus, addr: u64, size: Size)
    requires
        !(ROM_BASE <= addr < ROM_END),
        addr < DRAM_BASE,
    ensures
        bus.spec_read(addr, size) == Err::<u64, Trap>(Trap::LoadAccessFault),
{
}

} // verus!
