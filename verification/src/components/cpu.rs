//! Machine-level mode and fault types shared by the whole memory subsystem.
//! The cycle-driving processor itself lives outside this library; these types
//! are the vocabulary of its memory contract.

use vstd::prelude::*;

verus! {

/// The machine's integer register width mode, which decides how the MMU masks
/// virtual addresses.
#[derive(Clone, Copy, Debug, PartialEq, Eq, Structural)]
pub enum Xlen {
    Bit32,
    Bit64,
}

/// The privilege level a memory access is made under. Only machine mode is
/// implemented by the translation seam; the others are reserved for a future
/// page-table walk.
#[derive(Clone, Copy, Debug, PartialEq, Eq, Structural)]
pub enum PrivilegeMode {
    User,
    Supervisor,
    Reserved,
    Machine,
}

/// A fault, exception or interrupt condition, returned as a value instead of a
/// normal result and never retried internally.
#[derive(Clone, Copy, Debug, PartialEq, Eq, Structural)]
pub enum Trap {
    Breakpoint,
    EnvironmentCallFromMMode,
    EnvironmentCallFromSMode,
    EnvironmentCallFromUMode,
    IllegalInstruction,
    InstructionAccessFault,
    InstructionAddressMisaligned,
    InstructionPageFault,
    LoadAccessFault,
    LoadAddressMisaligned,
    LoadPageFault,
    MachineExternalInterrupt,
    MachineSoftwareInterrupt,
    MachineTimerInterrupt,
    StoreAccessFault,
    StoreAddressMisaligned,
    StorePageFault,
    SupervisorExternalInterrupt,
    SupervisorSoftwareInterrupt,
    SupervisorTimerInterrupt,
    UserExternalInterrupt,
    UserSoftwareInterrupt,
    UserTimerInterrupt,
}

} // verus!
