//! DRAM: a large, writable address range with bulk image loading for program
//! bootstrap.

use crate::components::bus::DRAM_BASE;
use crate::components::cpu::Trap;
use crate::components::memory::address::Addressable;
use crate::components::memory::image::Imageable;
use crate::components::memory::{le_value, spec_write_window, le_read, le_write, Size};
use vstd::prelude::*;

verus! {

/// Writable memory based at `DRAM_BASE`. Alongside its bytes it tracks the
/// length of the last loaded program image (informational, not an invariant).
#[derive(Debug)]
pub struct DRAM {
    dram: Vec<u8>,
    code_len: u64,
}

impl DRAM {
    /// The bytes the DRAM holds.
    pub closed spec fn mem(&self) -> Seq<u8> {
        self.dram@
    }

    /// The length of the last loaded program image.
    pub closed spec fn spec_code_len(&self) -> u64 {
        self.code_len
    }

    /// Whether a whole access window of `size` bytes at `addr`, probed one
    /// byte past its last accessed byte, lies inside the DRAM.
    pub open spec fn spec_window_ok(&self, addr: u64, size: Size) -> bool {
        &&& self.spec_contains(addr)
        &&& addr - DRAM_BASE + size.spec_bytes() < self.mem().len()
    }

    /// A fresh DRAM of `size` zero bytes.
    pub fn new(size: usize) -> (r: DRAM)
        ensures
            r.mem().len() == size,
            forall|i: int| 0 <= i < size ==> r.mem()[i] == 0,
            r.spec_code_len() == 0,
    {
        DRAM { dram: vec![0u8; size], code_len: 0 }
    }

    /// Copies the first `size` bytes of `data` into the DRAM starting at
    /// `addr`.
    fn write_bytes(&mut self, addr: u64, size: u8, data: Vec<u8>) -> (r: Result<(), Trap>)
        requires
            DRAM_BASE <= addr,
            addr - DRAM_BASE + size <= old(self).mem().len(),
            data@.len() == size,
        ensures
            r == Ok::<(), Trap>(()),
            final(self).mem() == spec_write_window(old(self).mem(), addr - DRAM_BASE, data@),
            final(self).spec_code_len() == old(self).spec_code_len(),
    {
        proof {
            assert(self.dram@.len() == self.dram.len());
        }
        let index = (addr - DRAM_BASE) as usize;
        le_write(&mut self.dram, index, &data);
        Ok(())
    }

    /// Assembles `size` bytes starting at `addr` into one little-endian value.
    fn read_bytes(&self, addr: u64, size: usize) -> (r: Result<u64, Trap>)
        requires
            DRAM_BASE <= addr,
            addr - DRAM_BASE + size <= self.mem().len(),
            size <= 8,
        ensures
            r == Ok::<u64, Trap>(
                le_value(self.mem().subrange(addr - DRAM_BASE, addr - DRAM_BASE + size)) as u64,
            ),
    {
        proof {
            assert(self.dram@.len() == self.dram.len());
        }
        let index = (addr - DRAM_BASE) as usize;
        Ok(le_read(&self.dram, index, size))
    }
}

impl Addressable for DRAM {
    open spec fn spec_contains(&self, addr: u64) -> bool {
        DRAM_BASE <= addr && addr - DRAM_BASE < self.mem().len()
    }

    open spec fn spec_size(&self) -> u64 {
        self.mem().len() as u64
    }

    open spec fn spec_read(&self, addr: u64, size: Size) -> Result<u64, Trap> {
        if self.spec_window_ok(addr, size) {
            Ok(
                le_value(
                    self.mem().subrange(addr - DRAM_BASE, addr - DRAM_BASE + size.spec_bytes()),
                ) as u64,
            )
        } else {
            Err(Trap::LoadAccessFault)
        }
    }

    /// A write succeeds exactly when the whole access window lies inside the
    /// DRAM; it then replaces that window with the given bytes and changes
    /// nothing else. An out-of-window write faults and leaves the DRAM
    /// unchanged.
    open spec fn spec_write_post(
        pre: DRAM,
        post: DRAM,
        addr: u64,
        size: Size,
        data: Seq<u8>,
        r: Result<(), Trap>,
    ) -> bool {
        if pre.spec_window_ok(addr, size) {
            &&& r == Ok::<(), Trap>(())
            &&& post.mem() == spec_write_window(pre.mem(), addr - DRAM_BASE, data)
            &&& post.spec_code_len() == pre.spec_code_len()
        } else {
            &&& r == Err::<(), Trap>(Trap::StoreAccessFault)
            &&& post == pre
        }
    }

    fn contains(&self, addr: u64) -> (r: bool) {
        addr >= DRAM_BASE && addr - DRAM_BASE < (self.dram.len() as u64)
    }

    fn size(&self) -> (r: u64) {
        self.dram.len() as u64
    }

    fn read(&self, addr: u64, size: Size) -> (r: Result<u64, Trap>) {
        let nbytes = size.bytes();
        if self.contains(addr) {
            let off = addr - DRAM_BASE;
            let len = self.dram.len() as u64;
            if nbytes < len - off {
                return self.read_bytes(addr, nbytes as usize);
            }
        }
        Err(Trap::LoadAccessFault)
    }

    fn write(&mut self, addr: u64, size: Size, data: Vec<u8>) -> (r: Result<(), Trap>) {
        let nbytes = size.bytes();
        if self.contains(addr) {
            let off = addr - DRAM_BASE;
            let len = self.dram.len() as u64;
            if nbytes < len - off {
                return self.write_bytes(addr, nbytes as u8, data);
            }
        }
        Err(Trap::StoreAccessFault)
    }
}

impl Imageable for DRAM {
    open spec fn spec_capacity(&self) -> nat {
        self.mem().len()
    }

    open spec fn spec_mem(&self) -> Seq<u8> {
        self.mem()
    }

    open spec fn spec_load_post(pre: DRAM, post: DRAM, image: Seq<u8>) -> bool {
        &&& post.mem() == spec_write_window(pre.mem(), 0, image)
        &&& post.spec_code_len() == image.len()
    }

    fn load_image(&mut self, image: Vec<u8>) {
        self.code_len = image.len() as u64;
        le_write(&mut self.dram, 0, &image);
    }

    fn clear_image(&mut self) {
        self.load_image(Vec::new());
    }

    fn save_image(&self) -> (r: Vec<u8>) {
        let mut out: Vec<u8> = Vec::new();
        let mut i: usize = 0;
        while i < self.dram.len()
            invariant
                i <= self.dram@.len(),
                out@ == self.dram@.subrange(0, i as int),
            decreases self.dram@.len() - i,
        {
            out.push(self.dram[i]);
            proof {
                assert(out@ =~= self.dram@.subrange(0, i + 1));
            }
            i = i + 1;
        }
        proof {
            assert(out@ =~= self.dram@);
        }
        out
    }
}

/// Byte-order round trip: a write of `data` that succeeded makes a read of the
/// same window return exactly the little-endian reconstruction of `data`.
pub proof fn lemma_write_read_round_trip(
    pre: DRAM,
    post: DRAM,
    addr: u64,
    size: Size,
    data: Seq<u8>,
)
    requires
        data.len() == size.spec_bytes(),
        DRAM::spec_write_post(pre, post, addr, size, data, Ok(())),
    ensures
        post.spec_read(addr, size) == Ok::<u64, Trap>(le_value(data) as u64),
{
    assert(pre.spec_window_ok(addr, size));
    assert(post.mem().subrange(addr - DRAM_BASE, addr - DRAM_BASE + size.spec_bytes()) =~= data);
}

/// Image-load policy: clearing the image shrinks the recorded image length to
/// zero but deliberately leaves the backing buffer as it was, so previously
/// loaded bytes stay readable.
pub proof fn lemma_clear_image_preserves_mem(pre: DRAM, post: DRAM)
    requires
        DRAM::spec_load_post(pre, post, Seq::<u8>::empty()),
    ensures
        post.mem() == pre.mem(),
        post.spec_code_len() == 0,
{
    assert(post.mem() =~= pre.mem());
}

} // verus!
