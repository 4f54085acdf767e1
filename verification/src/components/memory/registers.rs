//! The architectural register set: names for the 32 integer and 32
//! floating-point registers plus a few machine registers, and a generic
//! register file with hardwired-zero semantics at index 0.

use vstd::prelude::*;

verus! {

/// An architectural register name: integer registers `X0` to `X31`,
/// floating-point registers `F0` to `F31`, and machine registers.
#[derive(Clone, Copy, Debug, PartialEq, Eq, Structural)]
pub enum Register {
    X0,  // zero
    X1,  // ra
    X2,  // sp
    X3,  // gp
    X4,  // tp
    X5,  // t0
    X6,  // t1
    X7,  // t2
    X8,  // s0 / fp
    X9,  // s1
    X10,  // a0
    X11,  // a1
    X12,  // a2
    X13,  // a3
    X14,  // a4
    X15,  // a5
    X16,  // a6
    X17,  // a7
    X18,  // s2
    X19,  // s3
    X20,  // s4
    X21,  // s5
    X22,  // s6
    X23,  // s7
    X24,  // s8
    X25,  // s9
    X26,  // s10
    X27,  // s11
    X28,  // t3
    X29,  // t4
    X30,  // t5
    X31,  // t6
    F0,  // ft0
    F1,  // ft1
    F2,  // ft2
    F3,  // ft3
    F4,  // ft4
    F5,  // ft5
    F6,  // ft6
    F7,  // ft7
    F8,  // fs0
    F9,  // fs1
    F10,  // fa0
    F11,  // fa1
    F12,  // fa2
    F13,  // fa3
    F14,  // fa4
    F15,  // fa5
    F16,  // fa6
    F17,  // fa7
    F18,  // fs2
    F19,  // fs3
    F20,  // fs4
    F21,  // fs5
    F22,  // fs6
    F23,  // fs7
    F24,  // fs8
    F25,  // fs9
    F26,  // fs10
    F27,  // fs11
    F28,  // ft8
    F29,  // ft9
    F30,  // ft10
    F31,  // ft11
    PC,
    ICOUNT,
    MISA,
}

impl Register {
    /// The register's index: 0 to 31 for `X` registers, 32 to 63 for `F`
    /// registers, then the machine registers in order.
    pub open spec fn spec_number(&self) -> u8 {
        match self {
            Register::X0 => 0,
            Register::X1 => 1,
            Register::X2 => 2,
            Register::X3 => 3,
            Register::X4 => 4,
            Register::X5 => 5,
            Register::X6 => 6,
            Register::X7 => 7,
            Register::X8 => 8,
            Register::X9 => 9,
            Register::X10 => 10,
            Register::X11 => 11,
            Register::X12 => 12,
            Register::X13 => 13,
            Register::X14 => 14,
            Register::X15 => 15,
            Register::X16 => 16,
            Register::X17 => 17,
            Register::X18 => 18,
            Register::X19 => 19,
            Register::X20 => 20,
            Register::X21 => 21,
            Register::X22 => 22,
            Register::X23 => 23,
            Register::X24 => 24,
            Register::X25 => 25,
            Register::X26 => 26,
            Register::X27 => 27,
            Register::X28 => 28,
            Register::X29 => 29,
            Register::X30 => 30,
            Register::X31 => 31,
            Register::F0 => 32,
            Register::F1 => 33,
            Register::F2 => 34,
            Register::F3 => 35,
            Register::F4 => 36,
            Register::F5 => 37,
            Register::F6 => 38,
            Register::F7 => 39,
            Register::F8 => 40,
            Register::F9 => 41,
            Register::F10 => 42,
            Register::F11 => 43,
            Register::F12 => 44,
            Register::F13 => 45,
            Register::F14 => 46,
            Register::F15 => 47,
            Register::F16 => 48,
            Register::F17 => 49,
            Register::F18 => 50,
            Register::F19 => 51,
            Register::F20 => 52,
            Register::F21 => 53,
            Register::F22 => 54,
            Register::F23 => 55,
            Register::F24 => 56,
            Register::F25 => 57,
            Register::F26 => 58,
            Register::F27 => 59,
            Register::F28 => 60,
            Register::F29 => 61,
            Register::F30 => 62,
            Register::F31 => 63,
            Register::PC => 64,
            Register::ICOUNT => 65,
            Register::MISA => 66,
        }
    }

    /// The register's index: 0 to 31 for `X` registers, 32 to 63 for `F`
    /// registers, then the machine registers in order.
    pub fn number(&self) -> (r: u8)
        ensures
            r == self.spec_number(),
    {
        match self {
            Register::X0 => 0,
            Register::X1 => 1,
            Register::X2 => 2,
            Register::X3 => 3,
            Register::X4 => 4,
            Register::X5 => 5,
            Register::X6 => 6,
            Register::X7 => 7,
            Register::X8 => 8,
            Register::X9 => 9,
            Register::X10 => 10,
            Register::X11 => 11,
            Register::X12 => 12,
            Register::X13 => 13,
            Register::X14 => 14,
            Register::X15 => 15,
            Register::X16 => 16,
            Register::X17 => 17,
            Register::X18 => 18,
            Register::X19 => 19,
            Register::X20 => 20,
            Register::X21 => 21,
            Register::X22 => 22,
            Register::X23 => 23,
            Register::X24 => 24,
            Register::X25 => 25,
            Register::X26 => 26,
            Register::X27 => 27,
            Register::X28 => 28,
            Register::X29 => 29,
            Register::X30 => 30,
            Register::X31 => 31,
            Register::F0 => 32,
            Register::F1 => 33,
            Register::F2 => 34,
            Register::F3 => 35,
            Register::F4 => 36,
            Register::F5 => 37,
            Register::F6 => 38,
            Register::F7 => 39,
            Register::F8 => 40,
            Register::F9 => 41,
            Register::F10 => 42,
            Register::F11 => 43,
            Register::F12 => 44,
            Register::F13 => 45,
            Register::F14 => 46,
            Register::F15 => 47,
            Register::F16 => 48,
            Register::F17 => 49,
            Register::F18 => 50,
            Register::F19 => 51,
            Register::F20 => 52,
            Register::F21 => 53,
            Register::F22 => 54,
            Register::F23 => 55,
            Register::F24 => 56,
            Register::F25 => 57,
            Register::F26 => 58,
            Register::F27 => 59,
            Register::F28 => 60,
            Register::F29 => 61,
            Register::F30 => 62,
            Register::F31 => 63,
            Register::PC => 64,
            Register::ICOUNT => 65,
            Register::MISA => 66,
        }
    }

    /// The integer register of the given index.
    pub fn from(val: usize) -> (r: Register)
        requires
            val <= 31,
        ensures
            r.spec_number() == val,
    {
        match val {
            0 => Register::X0,
            1 => Register::X1,
            2 => Register::X2,
            3 => Register::X3,
            4 => Register::X4,
            5 => Register::X5,
            6 => Register::X6,
            7 => Register::X7,
            8 => Register::X8,
            9 => Register::X9,
            10 => Register::X10,
            11 => Register::X11,
            12 => Register::X12,
            13 => Register::X13,
            14 => Register::X14,
            15 => Register::X15,
            16 => Register::X16,
            17 => Register::X17,
            18 => Register::X18,
            19 => Register::X19,
            20 => Register::X20,
            21 => Register::X21,
            22 => Register::X22,
            23 => Register::X23,
            24 => Register::X24,
            25 => Register::X25,
            26 => Register::X26,
            27 => Register::X27,
            28 => Register::X28,
            29 => Register::X29,
            30 => Register::X30,
            31 => Register::X31,
            _ => {
                proof {
                    assert(false);
                }
                Register::X0
            },
        }
    }
}

/// A value type with a distinguished zero, the value the hardwired register 0
/// yields.
pub trait HardwiredZero: Sized {
    /// The type's zero value.
    spec fn spec_zero() -> Self;

    /// The type's zero value.
    fn zero() -> (r: Self)
        ensures
            r == Self::spec_zero(),
    ;
}

impl HardwiredZero for u64 {
    open spec fn spec_zero() -> u64 {
        0
    }

    fn zero() -> (r: u64) {
        0
    }
}

/// 32 logical registers of any zero-bearing value type. Register 0 is
/// synthesized as the zero value and never stored; registers 1 to 31 live in
/// the 31 backing slots. Writes to register 0 are no-ops.
pub struct RegisterFile<T> {
    regs: Vec<T>,
}

impl<T: HardwiredZero + Copy> View for RegisterFile<T> {
    type V = Seq<T>;

    /// The 32 logical register values, with index 0 pinned to the zero value.
    closed spec fn view(&self) -> Seq<T> {
        Seq::new(
            32,
            |i: int|
                if i == 0 {
                    T::spec_zero()
                } else {
                    self.regs@[i - 1]
                },
        )
    }
}

impl<T> RegisterFile<T> {
    /// Structural validity: the 31 backing slots are all present.
    pub closed spec fn wf(&self) -> bool {
        self.regs@.len() == 31
    }
}

impl<T: HardwiredZero + Copy> RegisterFile<T> {
    /// A fresh register file with every register at the zero value.
    pub fn new() -> (r: RegisterFile<T>)
        ensures
            r.wf(),
            r@ == Seq::new(32, |i: int| T::spec_zero()),
    {
        let mut regs: Vec<T> = Vec::new();
        let mut i: usize = 0;
        while i < 31
            invariant
                i <= 31,
                regs@.len() == i,
                forall|k: int| 0 <= k < i ==> regs@[k] == T::spec_zero(),
            decreases 31 - i,
        {
            regs.push(T::zero());
            i = i + 1;
        }
        let r = RegisterFile { regs };
        proof {
            assert(r@ =~= Seq::new(32, |i: int| T::spec_zero()));
        }
        r
    }

    /// Writes `data` to register number `num`; a write to register 0 is
    /// silently discarded.
    fn write_num(&mut self, num: u8, data: T)
        requires
            old(self).wf(),
            num < 32,
        ensures
            final(self).wf(),
            num == 0 ==> final(self)@ == old(self)@,
            num > 0 ==> final(self)@ == old(self)@.update(num as int, data),
    {
        if num > 0 {
            self.regs.set((num - 1) as usize, data);
            proof {
                assert(self@ =~= old(self)@.update(num as int, data));
            }
        }
    }

    /// Reads register number `num`; register 0 always reads as the zero
    /// value.
    fn read_num(&self, num: u8) -> (r: T)
        requires
            self.wf(),
            num < 32,
        ensures
            r == self@[num as int],
    {
        if num == 0 {
            T::zero()
        } else {
            self.regs[(num - 1) as usize]
        }
    }

    /// Reads the given register; register 0 always reads as the zero value.
    pub fn read(&self, reg: Register) -> (r: T)
        requires
            self.wf(),
            reg.spec_number() < 32,
        ensures
            r == self@[reg.spec_number() as int],
    {
        self.read_num(reg.number())
    }

    /// Writes `data` to the given register; a write to register 0 is silently
    /// discarded.
    pub fn write(&mut self, reg: Register, data: T)
        requires
            old(self).wf(),
            reg.spec_number() < 32,
        ensures
            final(self).wf(),
            reg.spec_number() == 0 ==> final(self)@ == old(self)@,
            reg.spec_number() > 0 ==> final(self)@ == old(self)@.update(
                reg.spec_number() as int,
                data,
            ),
    {
        self.write_num(reg.number(), data);
    }
}

/// A register file always presents exactly 32 logical registers.
pub proof fn lemma_register_count<T: HardwiredZero + Copy>(rf: &RegisterFile<T>)
    ensures
        rf@.len() == 32,
{
}

/// The hardwired-zero invariant: whatever was written, register 0 of any
/// register file reads as the type's zero value.
pub proof fn lemma_zero_register<T: HardwiredZero + Copy>(rf: &RegisterFile<T>)
    ensures
        rf@[0] == T::spec_zero(),
{
}

/// The zero-register law over a whole write: whatever `write` was given —
/// including any value aimed at register 0 itself — register 0 still reads
/// as the zero value afterwards, a written register 1 to 31 reads back
/// exactly the written value, and every other register is untouched.
pub proof fn lemma_write_then_read<T: HardwiredZero + Copy>(
    pre: RegisterFile<T>,
    post: RegisterFile<T>,
    num: u8,
    data: T,
)
    requires
        num < 32,
        num == 0 ==> post@ == pre@,
        num > 0 ==> post@ == pre@.update(num as int, data),
    ensures
        post@[0] == T::spec_zero(),
        num > 0 ==> post@[num as int] == data,
        forall|k: int| 0 <= k < 32 && k != num ==> post@[k] == pre@[k],
{
}

} // verus!
