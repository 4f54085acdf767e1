//! The memory space: access sizes, the device capability traits, the backing
//! devices themselves, and the little-endian byte-order model they share.

pub mod address;
pub mod dram;
pub mod image;
pub mod mmu;
pub mod registers;
pub mod rom;

use vstd::arithmetic::power2::{lemma2_to64, lemma_pow2_adds, pow2};
use vstd::prelude::*;

pub use self::dram::DRAM;
pub use self::mmu::MMU;
pub use self::registers::RegisterFile;

verus! {

/// How many bytes one memory access transfers. The byte count takes part in
/// boundary arithmetic, so it is a value of its own rather than a bare number.
#[derive(Clone, Copy, Debug, PartialEq, Eq, Structural)]
pub enum Size {
    Byte,
    HalfWord,
    Word,
    DoubleWord,
}

impl Size {
    /// The number of bytes this access size transfers.
    pub open spec fn spec_bytes(&self) -> u64 {
        match self {
            Size::Byte => 1,
            Size::HalfWord => 2,
            Size::Word => 4,
            Size::DoubleWord => 8,
        }
    }

    /// The number of bytes this access size transfers.
    pub fn bytes(&self) -> (r: u64)
        ensures
            r == self.spec_bytes(),
    {
        match self {
            Size::Byte => 1,
            Size::HalfWord => 2,
            Size::Word => 4,
            Size::DoubleWord => 8,
        }
    }
}

/// The value of a byte sequence read as a little-endian number: byte `i`
/// contributes its value shifted left by `8 * i` bits.
pub open spec fn le_value(s: Seq<u8>) -> nat
    decreases s.len(),
{
    if s.len() == 0 {
        0
    } else {
        (s[0] + 256 * le_value(s.drop_first())) as nat
    }
}

/// A little-endian value fits in as many bits as the sequence has bytes times
/// eight.
pub proof fn lemma_le_value_bound(s: Seq<u8>)
    ensures
        le_value(s) < pow2(8 * s.len()),
    decreases s.len(),
{
    lemma2_to64();
    if s.len() == 0 {
    } else {
        lemma_le_value_bound(s.drop_first());
        lemma_pow2_adds(8, 8 * (s.len() - 1) as nat);
        assert(256 * le_value(s.drop_first()) <= 256 * (pow2(8 * (s.len() - 1) as nat) - 1))
            by (nonlinear_arith)
            requires
                le_value(s.drop_first()) <= pow2(8 * (s.len() - 1) as nat) - 1,
        ;
    }
}

/// `mem` with the window starting at `index` replaced by `data`; everything
/// outside the window is unchanged and the length stays the same.
pub open spec fn spec_write_window(mem: Seq<u8>, index: int, data: Seq<u8>) -> Seq<u8> {
    Seq::new(
        mem.len(),
        |k: int|
            if index <= k < index + data.len() {
                data[k - index]
            } else {
                mem[k]
            },
    )
}

/// Reads `count` bytes of `mem` starting at `index` as one little-endian
/// value.
pub fn le_read(mem: &Vec<u8>, index: usize, count: usize) -> (r: u64)
    requires
        index + count <= mem@.len(),
        count <= 8,
    ensures
        r == le_value(mem@.subrange(index as int, index + count)),
{
    let mut acc: u64 = 0;
    let mut i: usize = count;
    proof {
        assert(mem@.len() == mem.len());
        assert(mem@.subrange(index + count, index + count) =~= Seq::<u8>::empty());
    }
    while i > 0
        invariant
            mem@.len() <= usize::MAX,
            index + count <= mem@.len(),
            count <= 8,
            i <= count,
            acc == le_value(mem@.subrange(index + i, index + count)),
        decreases i,
    {
        i = i - 1;
        let b = mem[index + i];
        proof {
            let tail = mem@.subrange(index + i + 1, index + count);
            let whole = mem@.subrange(index + i, index + count);
            assert(whole.drop_first() =~= tail);
            assert(whole[0] == mem@[index + i]);
            lemma_le_value_bound(tail);
            lemma2_to64();
            assert(8 * tail.len() <= 56);
            vstd::arithmetic::power2::lemma_pow2(8 * tail.len());
            vstd::arithmetic::power2::lemma_pow2(56);
            vstd::arithmetic::power::lemma_pow_increases(2, 8 * tail.len(), 56);
            lemma_pow2_adds(56, 8);
            assert(256 * acc <= 256 * (pow2(56) - 1)) by (nonlinear_arith)
                requires
                    acc <= pow2(56) - 1,
            ;
            vstd::arithmetic::power2::lemma2_to64_rest();
        }
        acc = 256 * acc + (b as u64);
    }
    acc
}

/// Overwrites the window of `mem` starting at `index` with the bytes of
/// `data`.
pub fn le_write(mem: &mut Vec<u8>, index: usize, data: &Vec<u8>)
    requires
        index + data@.len() <= old(mem)@.len(),
    ensures
        final(mem)@ == spec_write_window(old(mem)@, index as int, data@),
{
    let mut i: usize = 0;
    proof {
        assert(mem@.len() == mem.len());
    }
    while i < data.len()
        invariant
            mem@.len() <= usize::MAX,
            index + data@.len() <= mem@.len(),
            mem@.len() == old(mem)@.len(),
            i <= data@.len(),
            forall|k: int|
                0 <= k < mem@.len() && !(index <= k < index + i) ==> mem@[k] == old(mem)@[k],
            forall|k: int| index <= k < index + i ==> mem@[k] == data@[k - index],
        decreases data@.len() - i,
    {
        mem.set(index + i, data[i]);
        i = i + 1;
    }
    proof {
        assert(mem@ =~= spec_write_window(old(mem)@, index as int, data@));
    }
}

/// The first `count` little-endian bytes of `value`: byte `i` holds the bits
/// `8 * i` up to `8 * i + 7`.
pub open spec fn le_bytes_of(value: u64, count: int) -> Seq<u8>
    decreases count,
{
    if count <= 0 {
        Seq::empty()
    } else {
        seq![(value % 256) as u8] + le_bytes_of(value / 256, count - 1)
    }
}

/// Disassembling a value into little-endian bytes and reassembling them gives
/// the value back, reduced to as many bits as the bytes carry.
pub proof fn lemma_le_round_trip(value: u64, count: int)
    requires
        0 <= count,
    ensures
        le_value(le_bytes_of(value, count)) == (value as int) % (pow2(8 * count as nat) as int),
    decreases count,
{
    lemma2_to64();
    if count == 0 {
        assert(value % 1 == 0);
    } else {
        lemma_le_round_trip(value / 256, count - 1);
        let s = le_bytes_of(value, count);
        assert(s.drop_first() =~= le_bytes_of(value / 256, count - 1));
        lemma_pow2_adds(8, 8 * (count - 1) as nat);
        vstd::arithmetic::power2::lemma_pow2_pos(8 * (count - 1) as nat);
        vstd::arithmetic::div_mod::lemma_mod_breakdown(
            value as int,
            256,
            pow2(8 * (count - 1) as nat) as int,
        );
    }
}

/// The first `count` little-endian bytes of `value`, as a vector.
pub fn le_bytes(value: u64, count: usize) -> (v: Vec<u8>)
    ensures
        v@ == le_bytes_of(value, count as int),
        v@.len() == count,
    decreases count,
{
    if count == 0 {
        Vec::new()
    } else {
        proof {
            assert(value & 0xff == value % 256) by (bit_vector);
            assert(value >> 8u64 == value / 256) by (bit_vector);
        }
        let b = (value & 0xff) as u8;
        let mut rest = le_bytes(value >> 8, count - 1);
        rest.insert(0, b);
        proof {
            assert(rest@ =~= le_bytes_of(value, count as int));
        }
        rest
    }
}

} // verus!
