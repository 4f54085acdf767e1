//! The decoded instruction: a tagged union over the RISC-V mnemonics, and
//! the decoder that recovers one from a raw 32-bit word by walking the
//! ordered pattern table.

use crate::isa::decode::{
    format_matches, instruction_patterns, spec_format_matches, spec_instruction_patterns,
    BTypeParams, BOp, ITypeParams, IOp, InstructionFormat, JTypeParams, JOp, RTypeParams, ROp,
    STypeParams, SOp, UTypeParams, UOp,
};
use vstd::prelude::*;

verus! {

/// A decoded instruction with its operand record. The `UNDEF` sentinel stands
/// for every word the decoder does not recognize; mapping it to an
/// illegal-instruction trap is the execute stage's concern.
#[allow(non_camel_case_types)]
#[derive(Debug, PartialEq, Eq, Structural, Clone, Copy)]
pub enum Instruction {
    /// Undefined instruction: any word no pattern recognizes.
    UNDEF,

    // Binary operations
    ADD(RTypeParams),
    SUB(RTypeParams),
    XOR(RTypeParams),
    OR(RTypeParams),
    AND(RTypeParams),
    SLL(RTypeParams),
    SRL(RTypeParams),
    SRA(RTypeParams),
    SLT(RTypeParams),
    SLTU(RTypeParams),
    ADDW(RTypeParams),
    SUBW(RTypeParams),
    SLLW(RTypeParams),
    SRLW(RTypeParams),
    SRAW(RTypeParams),

    // Binary operations with an immediate operand
    ADDI(ITypeParams),
    XORI(ITypeParams),
    ORI(ITypeParams),
    ANDI(ITypeParams),
    SLLI(ITypeParams),
    SRLI(ITypeParams),
    SRAI(ITypeParams),
    SLTI(ITypeParams),
    SLTIU(ITypeParams),
    ADDIW(ITypeParams),
    SLLIW(ITypeParams),
    SRLIW(ITypeParams),
    SRAIW(ITypeParams),

    // Loads from memory
    LB(ITypeParams),
    LH(ITypeParams),
    LW(ITypeParams),
    LD(ITypeParams),
    LBU(ITypeParams),
    LHU(ITypeParams),
    LWU(ITypeParams),

    // Stores to memory
    SB(STypeParams),
    SH(STypeParams),
    SW(STypeParams),
    SD(STypeParams),

    // Branching
    BEQ(BTypeParams),
    BNE(BTypeParams),
    BLT(BTypeParams),
    BGE(BTypeParams),
    BLTU(BTypeParams),
    BGEU(BTypeParams),

    // Jumping
    JAL(JTypeParams),
    JALR(ITypeParams),

    // Upper immediates
    LUI(UTypeParams),
    AUIPC(UTypeParams),

    // Environment
    ECALL(ITypeParams),
    EBREAK(ITypeParams),

    // Multiplication extension
    MUL(RTypeParams),
    MULH(RTypeParams),
    MULSU(RTypeParams),
    MULU(RTypeParams),
    DIV(RTypeParams),
    DIVU(RTypeParams),
    REM(RTypeParams),
    REMU(RTypeParams),
    MULW(RTypeParams),
    DIVW(RTypeParams),
    DIVWU(RTypeParams),
    REMW(RTypeParams),
    REMWU(RTypeParams),
}

/// The instruction the R-type mnemonic `op` builds from operands `p`.
pub open spec fn spec_make_r(op: ROp, p: RTypeParams) -> Instruction {
    match op {
        ROp::ADD => Instruction::ADD(p),
        ROp::SUB => Instruction::SUB(p),
        ROp::XOR => Instruction::XOR(p),
        ROp::OR => Instruction::OR(p),
        ROp::AND => Instruction::AND(p),
        ROp::SLL => Instruction::SLL(p),
        ROp::SRL => Instruction::SRL(p),
        ROp::SRA => Instruction::SRA(p),
        ROp::SLT => Instruction::SLT(p),
        ROp::SLTU => Instruction::SLTU(p),
        ROp::ADDW => Instruction::ADDW(p),
        ROp::SUBW => Instruction::SUBW(p),
        ROp::SLLW => Instruction::SLLW(p),
        ROp::SRLW => Instruction::SRLW(p),
        ROp::SRAW => Instruction::SRAW(p),
        ROp::MUL => Instruction::MUL(p),
        ROp::MULH => Instruction::MULH(p),
        ROp::MULSU => Instruction::MULSU(p),
        ROp::MULU => Instruction::MULU(p),
        ROp::DIV => Instruction::DIV(p),
        ROp::DIVU => Instruction::DIVU(p),
        ROp::REM => Instruction::REM(p),
        ROp::REMU => Instruction::REMU(p),
        ROp::MULW => Instruction::MULW(p),
        ROp::DIVW => Instruction::DIVW(p),
        ROp::DIVWU => Instruction::DIVWU(p),
        ROp::REMW => Instruction::REMW(p),
        ROp::REMWU => Instruction::REMWU(p),
    }
}

/// The instruction the R-type mnemonic `op` builds from operands `p`.
pub fn make_r(op: ROp, p: RTypeParams) -> (r: Instruction)
    ensures
        r == spec_make_r(op, p),
{
    match op {
        ROp::ADD => Instruction::ADD(p),
        ROp::SUB => Instruction::SUB(p),
        ROp::XOR => Instruction::XOR(p),
        ROp::OR => Instruction::OR(p),
        ROp::AND => Instruction::AND(p),
        ROp::SLL => Instruction::SLL(p),
        ROp::SRL => Instruction::SRL(p),
        ROp::SRA => Instruction::SRA(p),
        ROp::SLT => Instruction::SLT(p),
        ROp::SLTU => Instruction::SLTU(p),
        ROp::ADDW => Instruction::ADDW(p),
        ROp::SUBW => Instruction::SUBW(p),
        ROp::SLLW => Instruction::SLLW(p),
        ROp::SRLW => Instruction::SRLW(p),
        ROp::SRAW => Instruction::SRAW(p),
        ROp::MUL => Instruction::MUL(p),
        ROp::MULH => Instruction::MULH(p),
        ROp::MULSU => Instruction::MULSU(p),
        ROp::MULU => Instruction::MULU(p),
        ROp::DIV => Instruction::DIV(p),
        ROp::DIVU => Instruction::DIVU(p),
        ROp::REM => Instruction::REM(p),
        ROp::REMU => Instruction::REMU(p),
        ROp::MULW => Instruction::MULW(p),
        ROp::DIVW => Instruction::DIVW(p),
        ROp::DIVWU => Instruction::DIVWU(p),
        ROp::REMW => Instruction::REMW(p),
        ROp::REMWU => Instruction::REMWU(p),
    }
}

/// The instruction the I-type mnemonic `op` builds from operands `p`.
pub open spec fn spec_make_i(op: IOp, p: ITypeParams) -> Instruction {
    match op {
        IOp::ADDI => Instruction::ADDI(p),
        IOp::XORI => Instruction::XORI(p),
        IOp::ORI => Instruction::ORI(p),
        IOp::ANDI => Instruction::ANDI(p),
        IOp::SLLI => Instruction::SLLI(p),
        IOp::SRLI => Instruction::SRLI(p),
        IOp::SRAI => Instruction::SRAI(p),
        IOp::SLTI => Instruction::SLTI(p),
        IOp::SLTIU => Instruction::SLTIU(p),
        IOp::LB => Instruction::LB(p),
        IOp::LH => Instruction::LH(p),
        IOp::LW => Instruction::LW(p),
        IOp::LBU => Instruction::LBU(p),
        IOp::LHU => Instruction::LHU(p),
        IOp::JALR => Instruction::JALR(p),
        IOp::ECALL => Instruction::ECALL(p),
        IOp::EBREAK => Instruction::EBREAK(p),
        IOp::LWU => Instruction::LWU(p),
        IOp::LD => Instruction::LD(p),
        IOp::ADDIW => Instruction::ADDIW(p),
        IOp::SLLIW => Instruction::SLLIW(p),
        IOp::SRLIW => Instruction::SRLIW(p),
        IOp::SRAIW => Instruction::SRAIW(p),
    }
}

/// The instruction the I-type mnemonic `op` builds from operands `p`.
pub fn make_i(op: IOp, p: ITypeParams) -> (r: Instruction)
    ensures
        r == spec_make_i(op, p),
{
    match op {
        IOp::ADDI => Instruction::ADDI(p),
        IOp::XORI => Instruction::XORI(p),
        IOp::ORI => Instruction::ORI(p),
        IOp::ANDI => Instruction::ANDI(p),
        IOp::SLLI => Instruction::SLLI(p),
        IOp::SRLI => Instruction::SRLI(p),
        IOp::SRAI => Instruction::SRAI(p),
        IOp::SLTI => Instruction::SLTI(p),
        IOp::SLTIU => Instruction::SLTIU(p),
        IOp::LB => Instruction::LB(p),
        IOp::LH => Instruction::LH(p),
        IOp::LW => Instruction::LW(p),
        IOp::LBU => Instruction::LBU(p),
        IOp::LHU => Instruction::LHU(p),
        IOp::JALR => Instruction::JALR(p),
        IOp::ECALL => Instruction::ECALL(p),
        IOp::EBREAK => Instruction::EBREAK(p),
        IOp::LWU => Instruction::LWU(p),
        IOp::LD => Instruction::LD(p),
        IOp::ADDIW => Instruction::ADDIW(p),
        IOp::SLLIW => Instruction::SLLIW(p),
        IOp::SRLIW => Instruction::SRLIW(p),
        IOp::SRAIW => Instruction::SRAIW(p),
    }
}

/// The instruction the S-type mnemonic `op` builds from operands `p`.
pub open spec fn spec_make_s(op: SOp, p: STypeParams) -> Instruction {
    match op {
        SOp::SB => Instruction::SB(p),
        SOp::SH => Instruction::SH(p),
        SOp::SW => Instruction::SW(p),
        SOp::SD => Instruction::SD(p),
    }
}

/// The instruction the S-type mnemonic `op` builds from operands `p`.
pub fn make_s(op: SOp, p: STypeParams) -> (r: Instruction)
    ensures
        r == spec_make_s(op, p),
{
    match op {
        SOp::SB => Instruction::SB(p),
        SOp::SH => Instruction::SH(p),
        SOp::SW => Instruction::SW(p),
        SOp::SD => Instruction::SD(p),
    }
}

/// The instruction the B-type mnemonic `op` builds from operands `p`.
pub open spec fn spec_make_b(op: BOp, p: BTypeParams) -> Instruction {
    match op {
        BOp::BEQ => Instruction::BEQ(p),
        BOp::BNE => Instruction::BNE(p),
        BOp::BLT => Instruction::BLT(p),
        BOp::BGE => Instruction::BGE(p),
        BOp::BLTU => Instruction::BLTU(p),
        BOp::BGEU => Instruction::BGEU(p),
    }
}

/// The instruction the B-type mnemonic `op` builds from operands `p`.
pub fn make_b(op: BOp, p: BTypeParams) -> (r: Instruction)
    ensures
        r == spec_make_b(op, p),
{
    match op {
        BOp::BEQ => Instruction::BEQ(p),
        BOp::BNE => Instruction::BNE(p),
        BOp::BLT => Instruction::BLT(p),
        BOp::BGE => Instruction::BGE(p),
        BOp::BLTU => Instruction::BLTU(p),
        BOp::BGEU => Instruction::BGEU(p),
    }
}

/// The instruction the U-type mnemonic `op` builds from operands `p`.
pub open spec fn spec_make_u(op: UOp, p: UTypeParams) -> Instruction {
    match op {
        UOp::LUI => Instruction::LUI(p),
        UOp::AUIPC => Instruction::AUIPC(p),
    }
}

/// The instruction the U-type mnemonic `op` builds from operands `p`.
pub fn make_u(op: UOp, p: UTypeParams) -> (r: Instruction)
    ensures
        r == spec_make_u(op, p),
{
    match op {
        UOp::LUI => Instruction::LUI(p),
        UOp::AUIPC => Instruction::AUIPC(p),
    }
}

/// The instruction the J-type mnemonic `op` builds from operands `p`.
pub open spec fn spec_make_j(op: JOp, p: JTypeParams) -> Instruction {
    match op {
        JOp::JAL => Instruction::JAL(p),
    }
}

/// The instruction the J-type mnemonic `op` builds from operands `p`.
pub fn make_j(op: JOp, p: JTypeParams) -> (r: Instruction)
    ensures
        r == spec_make_j(op, p),
{
    match op {
        JOp::JAL => Instruction::JAL(p),
    }
}

/// The instruction the pattern builds from the word, by the pattern's format.
pub open spec fn spec_apply_format(p: InstructionFormat, inst: u32) -> Instruction {
    match p {
        InstructionFormat::RType { op, .. } => spec_make_r(op, crate::isa::decode::spec_r_type_params(inst)),
        InstructionFormat::IType { op, .. } => spec_make_i(op, crate::isa::decode::spec_i_type_params(inst)),
        InstructionFormat::SType { op, .. } => spec_make_s(op, crate::isa::decode::spec_s_type_params(inst)),
        InstructionFormat::BType { op, .. } => spec_make_b(op, crate::isa::decode::spec_b_type_params(inst)),
        InstructionFormat::UType { op, .. } => spec_make_u(op, crate::isa::decode::spec_u_type_params(inst)),
        InstructionFormat::JType { op, .. } => spec_make_j(op, crate::isa::decode::spec_j_type_params(inst)),
    }
}

/// The instruction the pattern builds from the word, by the pattern's format.
pub fn apply_format(p: &InstructionFormat, inst: u32) -> (r: Instruction)
    ensures
        r == spec_apply_format(*p, inst),
{
    match p {
        InstructionFormat::RType { op, .. } => make_r(*op, RTypeParams::from(inst)),
        InstructionFormat::IType { op, .. } => make_i(*op, ITypeParams::from(inst)),
        InstructionFormat::SType { op, .. } => make_s(*op, STypeParams::from(inst)),
        InstructionFormat::BType { op, .. } => make_b(*op, BTypeParams::from(inst)),
        InstructionFormat::UType { op, .. } => make_u(*op, UTypeParams::from(inst)),
        InstructionFormat::JType { op, .. } => make_j(*op, JTypeParams::from(inst)),
    }
}

/// The first pattern of `patterns` that matches `inst` decides the result;
/// with no match the word decodes to `UNDEF`.
pub open spec fn spec_first_match(patterns: Seq<InstructionFormat>, inst: u32) -> Instruction
    decreases patterns.len(),
{
    if patterns.len() == 0 {
        Instruction::UNDEF
    } else if spec_format_matches(patterns[0], inst) {
        spec_apply_format(patterns[0], inst)
    } else {
        spec_first_match(patterns.drop_first(), inst)
    }
}

/// What `inst` decodes to: the verdict of the first matching pattern of the
/// table, or `UNDEF` when none matches.
pub open spec fn spec_decode(inst: u32) -> Instruction {
    spec_first_match(spec_instruction_patterns(), inst)
}

/// A word that no pattern of `patterns` matches falls through to `UNDEF`.
proof fn lemma_first_match_none(patterns: Seq<InstructionFormat>, inst: u32)
    requires
        forall|j: int| 0 <= j < patterns.len() ==> !spec_format_matches(patterns[j], inst),
    ensures
        spec_first_match(patterns, inst) == Instruction::UNDEF,
    decreases patterns.len(),
{
    if patterns.len() > 0 {
        lemma_first_match_none(patterns.drop_first(), inst);
    }
}

/// An unrecognized word decodes to `UNDEF`: whenever no pattern of the table
/// matches `inst`, the decoder's result is the sentinel, never a fault.
pub proof fn lemma_unrecognized_word_is_undef(inst: u32)
    requires
        forall|j: int|
            0 <= j < spec_instruction_patterns().len() ==> !spec_format_matches(
                spec_instruction_patterns()[j],
                inst,
            ),
    ensures
        spec_decode(inst) == Instruction::UNDEF,
{
    lemma_first_match_none(spec_instruction_patterns(), inst);
}

impl Instruction {
    /// Decodes a raw word by walking the pattern table once; the first
    /// structurally matching pattern wins. Decoding never fails: a word no
    /// pattern recognizes yields `UNDEF`.
    pub fn decode(inst: u32) -> (r: Instruction)
        ensures
            r == spec_decode(inst),
    {
        let table = instruction_patterns();
        let n = table.len();
        let mut i: usize = 0;
        proof {
            assert(table@.skip(0) =~= table@);
        }
        while i < n
            invariant
                table@ == spec_instruction_patterns(),
                n == table@.len(),
                i <= n,
                spec_decode(inst) == spec_first_match(table@.skip(i as int), inst),
            decreases n - i,
        {
            let p = table[i];
            proof {
                let s = table@.skip(i as int);
                assert(s[0] == table@[i as int]);
                assert(s.drop_first() =~= table@.skip(i + 1));
            }
            if format_matches(&p, inst) {
                return apply_format(&p, inst);
            }
            i = i + 1;
        }
        proof {
            assert(table@.skip(n as int) =~= Seq::<InstructionFormat>::empty());
        }
        Instruction::UNDEF
    }
}

} // verus!
