//! Boot ROM: a fixed-size, read-only address range. Writes always fault.

use crate::components::bus::ROM_BASE;
use crate::components::cpu::Trap;
use crate::components::memory::address::Addressable;
use crate::components::memory::image::Imageable;
use crate::components::memory::{le_value, spec_write_window, le_read, le_write, Size};
use vstd::prelude::*;

verus! {

/// The number of bytes of boot ROM.
pub const SIZE: usize = 0xf000;

/// Read-only memory based at `ROM_BASE`, seeded once with a boot image.
#[derive(Debug)]
pub struct ROM {
    rom: Vec<u8>,
}

impl ROM {
    /// The bytes the ROM holds.
    pub closed spec fn mem(&self) -> Seq<u8> {
        self.rom@
    }

    /// Whether a whole access window of `size` bytes at `addr`, probed one
    /// byte past its last accessed byte, lies inside the ROM.
    pub open spec fn spec_window_ok(&self, addr: u64, size: Size) -> bool {
        &&& self.spec_contains(addr)
        &&& addr - ROM_BASE + size.spec_bytes() < self.mem().len()
    }

    /// A fresh ROM of `SIZE` zero bytes.
    pub fn new() -> (r: ROM)
        ensures
            r.mem().len() == SIZE,
            forall|i: int| 0 <= i < SIZE ==> r.mem()[i] == 0,
    {
        ROM { rom: vec![0u8; SIZE] }
    }

    /// Assembles `size` bytes starting at `addr` into one little-endian value.
    fn read_bytes(&self, addr: u64, size: usize) -> (r: Result<u64, Trap>)
        requires
            ROM_BASE <= addr,
            addr - ROM_BASE + size <= self.mem().len(),
            size <= 8,
        ensures
            r == Ok::<u64, Trap>(
                le_value(self.mem().subrange(addr - ROM_BASE, addr - ROM_BASE + size)) as u64,
            ),
    {
        proof {
            assert(self.rom@.len() == self.rom.len());
        }
        let index = (addr - ROM_BASE) as usize;
        Ok(le_read(&self.rom, index, size))
    }
}

impl Addressable for ROM {
    open spec fn spec_contains(&self, addr: u64) -> bool {
        ROM_BASE <= addr && addr - ROM_BASE < self.mem().len()
    }

    open spec fn spec_size(&self) -> u64 {
        self.mem().len() as u64
    }

    open spec fn spec_read(&self, addr: u64, size: Size) -> Result<u64, Trap> {
        if self.spec_window_ok(addr, size) {
            Ok(
                le_value(
                    self.mem().subrange(addr - ROM_BASE, addr - ROM_BASE + size.spec_bytes()),
                ) as u64,
            )
        } else {
            Err(Trap::LoadAccessFault)
        }
    }

    /// The ROM is unconditionally immutable: every write faults and leaves it
    /// unchanged, regardless of address, size or legality.
    open spec fn spec_write_post(
        pre: ROM,
        post: ROM,
        addr: u64,
        size: Size,
        data: Seq<u8>,
        r: Result<(), Trap>,
    ) -> bool {
        &&& r == Err::<(), Trap>(Trap::StoreAccessFault)
        &&& post == pre
    }

    fn contains(&self, addr: u64) -> (r: bool) {
        addr >= ROM_BASE && addr - ROM_BASE < (self.rom.len() as u64)
    }

    fn size(&self) -> (r: u64) {
        self.rom.len() as u64
    }

    fn read(&self, addr: u64, size: Size) -> (r: Result<u64, Trap>) {
        let nbytes = size.bytes();
        if self.contains(addr) {
            let off = addr - ROM_BASE;
            let len = self.rom.len() as u64;
            if nbytes < len - off {
                return self.read_bytes(addr, nbytes as usize);
            }
        }
        Err(Trap::LoadAccessFault)
    }

    fn write(&mut self, _addr: u64, _size: Size, _data: Vec<u8>) -> (r: Result<(), Trap>) {
        Err(Trap::StoreAccessFault)
    }
}

impl Imageable for ROM {
    open spec fn spec_capacity(&self) -> nat {
        self.mem().len()
    }

    open spec fn spec_mem(&self) -> Seq<u8> {
        self.mem()
    }

    open spec fn spec_load_post(pre: ROM, post: ROM, image: Seq<u8>) -> bool {
        post.mem() == spec_write_window(pre.mem(), 0, image)
    }

    fn load_image(&mut self, image: Vec<u8>) {
        le_write(&mut self.rom, 0, &image);
    }

    fn clear_image(&mut self) {
        self.load_image(Vec::new());
    }

    fn save_image(&self) -> (r: Vec<u8>) {
        let mut out: Vec<u8> = Vec::new();
        let mut i: usize = 0;
        while i < self.rom.len()
            invariant
                i <= self.rom@.len(),
                out@ == self.rom@.subrange(0, i as int),
            decreases self.rom@.len() - i,
        {
            out.push(self.rom[i]);
            proof {
                assert(out@ =~= self.rom@.subrange(0, i + 1));
            }
            i = i + 1;
        }
        proof {
            assert(out@ =~= self.rom@);
        }
        out
    }
}

} // verus!
