//! A plain word-aligned byte memory with little-endian reads and writes of
//! byte, half-word and word widths.

use crate::components::memory::{le_bytes, le_bytes_of, le_read, le_value, le_write,
    spec_write_window};
use vstd::prelude::*;

verus! {

/// A flat byte memory of a fixed, word-aligned size, addressed from zero.
pub struct RAM {
    size: usize,
    mem: Vec<u8>,
}

impl RAM {
    /// Structural validity: the buffer holds exactly the declared size.
    pub closed spec fn wf(&self) -> bool {
        self.mem@.len() == self.size
    }

    /// The bytes the memory holds.
    pub closed spec fn mem(&self) -> Seq<u8> {
        self.mem@
    }

    /// A fresh memory of `size` zero bytes; the size must be a positive
    /// multiple of the word size.
    pub fn new(size: usize) -> (r: RAM)
        requires
            size % 4 == 0,
            size > 0,
        ensures
            r.wf(),
            r.mem().len() == size,
            forall|i: int| 0 <= i < size ==> r.mem()[i] == 0,
    {
        RAM { size, mem: vec![0u8; size] }
    }

    /// Assembles `size` bytes starting at `base` into one little-endian
    /// value.
    fn read(&self, base: usize, size: usize) -> (r: u64)
        requires
            self.wf(),
            base + size <= self.mem().len(),
            size <= 8,
        ensures
            r == le_value(self.mem().subrange(base as int, base + size)),
    {
        le_read(&self.mem, base, size)
    }

    /// Stores the low `8 * size` bits of `data` as `size` little-endian bytes
    /// starting at `base`.
    fn write(&mut self, base: usize, size: usize, data: u64)
        requires
            old(self).wf(),
            base + size <= old(self).mem().len(),
            size <= 8,
        ensures
            final(self).wf(),
            final(self).mem() == spec_write_window(
                old(self).mem(),
                base as int,
                le_bytes_of(data, size as int),
            ),
    {
        let bytes = le_bytes(data, size);
        le_write(&mut self.mem, base, &bytes);
    }

    /// Reads the instruction word at the program counter.
    pub fn fetch(&self, pc: u64) -> (r: u64)
        requires
            self.wf(),
            pc + 4 <= self.mem().len(),
        ensures
            r == le_value(self.mem().subrange(pc as int, pc + 4)),
    {
        self.read(pc as usize, 4)
    }

    /// Reads the little-endian word at `addr`.
    pub fn read_word(&self, addr: u64) -> (r: u64)
        requires
            self.wf(),
            addr + 4 <= self.mem().len(),
        ensures
            r == le_value(self.mem().subrange(addr as int, addr + 4)),
    {
        self.read(addr as usize, 4)
    }

    /// Reads the little-endian half-word at `addr`.
    pub fn read_half_word(&self, addr: u64) -> (r: u64)
        requires
            self.wf(),
            addr + 2 <= self.mem().len(),
        ensures
            r == le_value(self.mem().subrange(addr as int, addr + 2)),
    {
        self.read(addr as usize, 2)
    }

    /// Reads the byte at `addr`.
    pub fn read_byte(&self, addr: u64) -> (r: u64)
        requires
            self.wf(),
            addr + 1 <= self.mem().len(),
        ensures
            r == le_value(self.mem().subrange(addr as int, addr + 1)),
    {
        self.read(addr as usize, 1)
    }

    /// Writes the low word of `data` at `addr`, little-endian.
    pub fn write_word(&mut self, addr: u64, data: u64)
        requires
            old(self).wf(),
            addr + 4 <= old(self).mem().len(),
        ensures
            final(self).wf(),
            final(self).mem() == spec_write_window(
                old(self).mem(),
                addr as int,
                le_bytes_of(data, 4),
            ),
    {
        self.write(addr as usize, 4, data)
    }

    /// Writes the low half-word of `data` at `addr`, little-endian.
    pub fn write_half_word(&mut self, addr: u64, data: u64)
        requires
            old(self).wf(),
            addr + 2 <= old(self).mem().len(),
        ensures
            final(self).wf(),
            final(self).mem() == spec_write_window(
                old(self).mem(),
                addr as int,
                le_bytes_of(data, 2),
            ),
    {
        self.write(addr as usize, 2, data)
    }

    /// Writes the low byte of `data` at `addr`.
    pub fn write_byte(&mut self, addr: u64, data: u64)
        requires
            old(self).wf(),
            addr + 1 <= old(self).mem().len(),
        ensures
            final(self).wf(),
            final(self).mem() == spec_write_window(
                old(self).mem(),
                addr as int,
                le_bytes_of(data, 1),
            ),
    {
        self.write(addr as usize, 1, data)
    }
}

} // verus!
