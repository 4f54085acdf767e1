//! The integer register file: 32 addressable registers of which index 0 is
//! hardwired to zero, backed by 31 stored slots.

use vstd::prelude::*;

verus! {

/// 32 logical 64-bit registers. Register 0 is synthesized: reads of it yield
/// zero and writes to it are silently discarded; registers 1 to 31 live in the
/// 31 backing slots.
pub struct RegisterFile {
    regs: Vec<u64>,
}

impl View for RegisterFile {
    type V = Seq<u64>;

    /// The 32 logical register values, with index 0 pinned to zero.
    closed spec fn view(&self) -> Seq<u64> {
        Seq::new(
            32,
            |i: int|
                if i == 0 {
                    0u64
                } else {
                    self.regs@[i - 1]
                },
        )
    }
}

impl RegisterFile {
    /// Structural validity: the 31 backing slots are all present.
    pub closed spec fn wf(&self) -> bool {
        self.regs@.len() == 31
    }

    /// A fresh register file with every register zero.
    pub fn new() -> (r: RegisterFile)
        ensures
            r.wf(),
            r@ == Seq::new(32, |i: int| 0u64),
    {
        let r = RegisterFile { regs: vec![0u64; 31] };
        proof {
            assert(r@ =~= Seq::new(32, |i: int| 0u64));
        }
        r
    }

    /// Writes `data` to register `num`. A write to register 0 is a no-op.
    pub fn write(&mut self, num: u8, data: u64)
        requires
            old(self).wf(),
            num < 32,
        ensures
            final(self).wf(),
            num == 0 ==> final(self)@ == old(self)@,
            num > 0 ==> final(self)@ == old(self)@.update(num as int, data),
    {
        if num > 0 {
            self.regs.set((num - 1) as usize, data);
            proof {
                assert(self@ =~= old(self)@.update(num as int, data));
            }
        }
    }

    /// Reads register `num`; register 0 always reads as zero.
    pub fn read(&self, num: u8) -> (r: u64)
        requires
            self.wf(),
            num < 32,
        ensures
            r == self@[num as int],
    {
        if num == 0 {
            0
        } else {
            self.regs[(num - 1) as usize]
        }
    }
}

/// A register file always presents exactly 32 logical registers.
pub proof fn lemma_register_count(rf: &RegisterFile)
    ensures
        rf@.len() == 32,
{
}

/// The hardwired-zero invariant: whatever was written, register 0 of any
/// register file reads as zero.
pub proof fn lemma_zero_register(rf: &RegisterFile)
    ensures
        rf@[0] == 0u64,
{
}

/// The zero-register law over a whole write: whatever `write` was given —
/// including any value aimed at register 0 itself — register 0 still reads
/// as zero afterwards, a written register 1 to 31 reads back exactly the
/// written value, and every other register is untouched.
pub proof fn lemma_write_then_read(pre: RegisterFile, post: RegisterFile, num: u8, data: u64)
    requires
        num < 32,
        num == 0 ==> post@ == pre@,
        num > 0 ==> post@ == pre@.update(num as int, data),
    ensures
        post@[0] == 0,
        num > 0 ==> post@[num as int] == data,
        forall|k: int| 0 <= k < 32 && k != num ==> post@[k] == pre@[k],
{
}

} // verus!
