//! The six RISC-V instruction encodings: the operand records each format
//! carries, the field extraction that fills them, and the ordered pattern
//! table the decoder walks.

use crate::util::{get_bits, sign_extend_32, spec_get_bits, spec_sign_extend_32};
use vstd::arithmetic::power2::lemma2_to64;
use vstd::prelude::*;

verus! {

/// The R-type mnemonics: register-register arithmetic and logic, their
/// 32-bit-word variants, and the multiply/divide extension.
#[allow(non_camel_case_types)]
#[derive(Clone, Copy, Debug, PartialEq, Eq, Structural)]
pub enum ROp {
    ADD,
    SUB,
    XOR,
    OR,
    AND,
    SLL,
    SRL,
    SRA,
    SLT,
    SLTU,
    ADDW,
    SUBW,
    SLLW,
    SRLW,
    SRAW,
    MUL,
    MULH,
    MULSU,
    MULU,
    DIV,
    DIVU,
    REM,
    REMU,
    MULW,
    DIVW,
    DIVWU,
    REMW,
    REMWU,
}

/// The I-type mnemonics: immediate arithmetic and shifts, loads, the
/// register jump, and the environment instructions.
#[allow(non_camel_case_types)]
#[derive(Clone, Copy, Debug, PartialEq, Eq, Structural)]
pub enum IOp {
    ADDI,
    XORI,
    ORI,
    ANDI,
    SLLI,
    SRLI,
    SRAI,
    SLTI,
    SLTIU,
    LB,
    LH,
    LW,
    LBU,
    LHU,
    JALR,
    ECALL,
    EBREAK,
    LWU,
    LD,
    ADDIW,
    SLLIW,
    SRLIW,
    SRAIW,
}

/// The S-type mnemonics: stores of each access width.
#[allow(non_camel_case_types)]
#[derive(Clone, Copy, Debug, PartialEq, Eq, Structural)]
pub enum SOp {
    SB,
    SH,
    SW,
    SD,
}

/// The B-type mnemonics: the six conditional branches.
#[allow(non_camel_case_types)]
#[derive(Clone, Copy, Debug, PartialEq, Eq, Structural)]
pub enum BOp {
    BEQ,
    BNE,
    BLT,
    BGE,
    BLTU,
    BGEU,
}

/// The U-type mnemonics: the upper-immediate instructions.
#[allow(non_camel_case_types)]
#[derive(Clone, Copy, Debug, PartialEq, Eq, Structural)]
pub enum UOp {
    LUI,
    AUIPC,
}

/// The J-type mnemonic: the plain jump.
#[allow(non_camel_case_types)]
#[derive(Clone, Copy, Debug, PartialEq, Eq, Structural)]
pub enum JOp {
    JAL,
}

/// A runtime predicate an I-type pattern may put on the decoded fields,
/// besides opcode and funct3: shift instructions check that the immediate's
/// upper seven bits equal a funct7-like literal, and the environment
/// instructions are told apart by the whole immediate.
#[derive(Clone, Copy, Debug, PartialEq, Eq, Structural)]
pub enum IPredicate {
    /// No further condition.
    Always,
    /// The upper seven bits of the 12-bit immediate field equal the literal.
    UpperImm(u32),
    /// The immediate equals the literal.
    ImmIs(i32),
}

/// Whether the predicate holds of the decoded I-type fields.
pub open spec fn spec_predicate_holds(p: IPredicate, params: ITypeParams) -> bool {
    match p {
        IPredicate::Always => true,
        IPredicate::UpperImm(k) => spec_get_bits(params.imm as u32 as u64, 5, 11) == k,
        IPredicate::ImmIs(k) => params.imm == k,
    }
}

/// Whether the predicate holds of the decoded I-type fields.
pub fn predicate_holds(p: IPredicate, params: &ITypeParams) -> (b: bool)
    ensures
        b == spec_predicate_holds(p, *params),
{
    match p {
        IPredicate::Always => true,
        IPredicate::UpperImm(k) => {
            let unsigned = #[verifier::truncate] (params.imm as u32);
            get_bits(unsigned as u64, 5, 11) == k as u64
        },
        IPredicate::ImmIs(k) => params.imm == k,
    }
}

/// One recognized encoding: the discriminant fields that must match a word,
/// and the mnemonic to build when they do. The patterns stand in an ordered
/// table and the first structurally matching one wins.
#[derive(Clone, Copy, Debug, PartialEq, Eq, Structural)]
pub enum InstructionFormat {
    RType { opcode: u32, funct3: u32, funct7: u32, op: ROp },
    IType { opcode: u32, funct3: u32, predicate: IPredicate, op: IOp },
    SType { opcode: u32, funct3: u32, op: SOp },
    BType { opcode: u32, funct3: u32, op: BOp },
    UType { opcode: u32, op: UOp },
    JType { opcode: u32, op: JOp },
}

/// The operands of an R-type word: two source registers and a destination.
#[derive(Debug, PartialEq, Eq, Structural, Clone, Copy)]
pub struct RTypeParams {
    pub rs1: u8,
    pub rs2: u8,
    pub rd: u8,
}

/// The R-type fields of `inst`.
pub open spec fn spec_r_type_params(inst: u32) -> RTypeParams {
    RTypeParams {
        rs1: spec_get_bits(inst as u64, 15, 19) as u8,
        rs2: spec_get_bits(inst as u64, 20, 24) as u8,
        rd: spec_get_bits(inst as u64, 7, 11) as u8,
    }
}

impl RTypeParams {
    /// Extracts the R-type fields from a raw word.
    pub fn from(inst: u32) -> (r: Self)
        ensures
            r == spec_r_type_params(inst),
    {
        proof {
            lemma2_to64();
        }
        Self {
            rs1: get_bits(inst as u64, 15, 19) as u8,
            rs2: get_bits(inst as u64, 20, 24) as u8,
            rd: get_bits(inst as u64, 7, 11) as u8,
        }
    }
}

/// The operands of an I-type word: a source register, a destination, and a
/// sign-extended 12-bit immediate.
#[derive(Debug, PartialEq, Eq, Structural, Clone, Copy)]
pub struct ITypeParams {
    pub rs1: u8,
    pub rd: u8,
    pub imm: i32,
}

/// The I-type fields of `inst`.
pub open spec fn spec_i_type_params(inst: u32) -> ITypeParams {
    ITypeParams {
        rs1: spec_get_bits(inst as u64, 15, 19) as u8,
        rd: spec_get_bits(inst as u64, 7, 11) as u8,
        imm: spec_sign_extend_32(spec_get_bits(inst as u64, 20, 31) as u32, 12),
    }
}

impl ITypeParams {
    /// Extracts the I-type fields from a raw word, sign-extending the
    /// immediate.
    pub fn from(inst: u32) -> (r: Self)
        ensures
            r == spec_i_type_params(inst),
    {
        proof {
            lemma2_to64();
        }
        Self {
            rs1: get_bits(inst as u64, 15, 19) as u8,
            rd: get_bits(inst as u64, 7, 11) as u8,
            imm: sign_extend_32(get_bits(inst as u64, 20, 31) as u32, 12),
        }
    }
}

/// The operands of an S-type word: two source registers and a sign-extended
/// 12-bit immediate split over two fields.
#[derive(Debug, PartialEq, Eq, Structural, Clone, Copy)]
pub struct STypeParams {
    pub rs1: u8,
    pub rs2: u8,
    pub imm: i32,
}

/// The S-type fields of `inst`: the immediate is reassembled from bits 25 to
/// 31 over bits 7 to 11, then sign-extended from 12 bits.
pub open spec fn spec_s_type_params(inst: u32) -> STypeParams {
    let imm1 = spec_get_bits(inst as u64, 7, 11);
    let imm2 = spec_get_bits(inst as u64, 25, 31);
    STypeParams {
        rs1: spec_get_bits(inst as u64, 15, 19) as u8,
        rs2: spec_get_bits(inst as u64, 20, 24) as u8,
        imm: spec_sign_extend_32(((imm2 << 5) | imm1) as u32, 12),
    }
}

impl STypeParams {
    /// Extracts the S-type fields from a raw word, reassembling and
    /// sign-extending the split immediate.
    pub fn from(inst: u32) -> (r: Self)
        ensures
            r == spec_s_type_params(inst),
    {
        proof {
            lemma2_to64();
        }
        let imm1 = get_bits(inst as u64, 7, 11);
        let imm2 = get_bits(inst as u64, 25, 31);
        proof {
            assert((imm2 << 5) | imm1 < 4096) by (bit_vector)
                requires
                    imm2 < 128,
                    imm1 < 32,
            ;
        }
        Self {
            rs1: get_bits(inst as u64, 15, 19) as u8,
            rs2: get_bits(inst as u64, 20, 24) as u8,
            imm: sign_extend_32(((imm2 << 5) | imm1) as u32, 12),
        }
    }
}

/// The operands of a B-type word: two source registers and a sign-extended,
/// always-even 13-bit branch offset assembled from four split fields.
#[derive(Debug, PartialEq, Eq, Structural, Clone, Copy)]
pub struct BTypeParams {
    pub rs1: u8,
    pub rs2: u8,
    pub imm: i32,
}

/// The B-type fields of `inst`: the offset is bit 31, then bit 7, then bits
/// 25 to 30, then bits 8 to 11, with a forced zero low bit, sign-extended
/// from 13 bits.
pub open spec fn spec_b_type_params(inst: u32) -> BTypeParams {
    let imm1 = spec_get_bits(inst as u64, 8, 11);
    let imm2 = spec_get_bits(inst as u64, 25, 30);
    let imm3 = spec_get_bits(inst as u64, 7, 7);
    let imm4 = spec_get_bits(inst as u64, 31, 31);
    BTypeParams {
        rs1: spec_get_bits(inst as u64, 15, 19) as u8,
        rs2: spec_get_bits(inst as u64, 20, 24) as u8,
        imm: spec_sign_extend_32(
            ((imm4 << 12) | (imm3 << 11) | (imm2 << 5) | (imm1 << 1)) as u32,
            13,
        ),
    }
}

impl BTypeParams {
    /// Extracts the B-type fields from a raw word, reassembling and
    /// sign-extending the split branch offset.
    pub fn from(inst: u32) -> (r: Self)
        ensures
            r == spec_b_type_params(inst),
    {
        proof {
            lemma2_to64();
        }
        let imm1 = get_bits(inst as u64, 8, 11);
        let imm2 = get_bits(inst as u64, 25, 30);
        let imm3 = get_bits(inst as u64, 7, 7);
        let imm4 = get_bits(inst as u64, 31, 31);
        proof {
            assert((imm4 << 12) | (imm3 << 11) | (imm2 << 5) | (imm1 << 1) < 8192) by (bit_vector)
                requires
                    imm4 < 2,
                    imm3 < 2,
                    imm2 < 64,
                    imm1 < 16,
            ;
        }
        Self {
            rs1: get_bits(inst as u64, 15, 19) as u8,
            rs2: get_bits(inst as u64, 20, 24) as u8,
            imm: sign_extend_32(
                ((imm4 << 12) | (imm3 << 11) | (imm2 << 5) | (imm1 << 1)) as u32,
                13,
            ),
        }
    }
}

/// The operands of a J-type word: a destination register and a sign-extended,
/// always-even 21-bit jump offset assembled from four split fields.
#[derive(Debug, PartialEq, Eq, Structural, Clone, Copy)]
pub struct JTypeParams {
    pub rd: u8,
    pub imm: i32,
}

/// The J-type fields of `inst`: the offset is bit 31, then bits 12 to 19,
/// then bit 20, then bits 21 to 30, with a forced zero low bit, sign-extended
/// from 21 bits.
pub open spec fn spec_j_type_params(inst: u32) -> JTypeParams {
    let imm1 = spec_get_bits(inst as u64, 21, 30);
    let imm2 = spec_get_bits(inst as u64, 20, 20);
    let imm3 = spec_get_bits(inst as u64, 12, 19);
    let imm4 = spec_get_bits(inst as u64, 31, 31);
    JTypeParams {
        rd: spec_get_bits(inst as u64, 7, 11) as u8,
        imm: spec_sign_extend_32(
            ((imm4 << 20) | (imm3 << 12) | (imm2 << 11) | (imm1 << 1)) as u32,
            21,
        ),
    }
}

impl JTypeParams {
    /// Extracts the J-type fields from a raw word, reassembling and
    /// sign-extending the split jump offset.
    pub fn from(inst: u32) -> (r: Self)
        ensures
            r == spec_j_type_params(inst),
    {
        proof {
            lemma2_to64();
        }
        let imm1 = get_bits(inst as u64, 21, 30);
        let imm2 = get_bits(inst as u64, 20, 20);
        let imm3 = get_bits(inst as u64, 12, 19);
        let imm4 = get_bits(inst as u64, 31, 31);
        proof {
            assert((imm4 << 20) | (imm3 << 12) | (imm2 << 11) | (imm1 << 1) < 2097152)
                by (bit_vector)
                requires
                    imm4 < 2,
                    imm3 < 256,
                    imm2 < 2,
                    imm1 < 1024,
            ;
        }
        Self {
            rd: get_bits(inst as u64, 7, 11) as u8,
            imm: sign_extend_32(
                ((imm4 << 20) | (imm3 << 12) | (imm2 << 11) | (imm1 << 1)) as u32,
                21,
            ),
        }
    }
}

/// The operands of a U-type word: a destination register and the upper
/// immediate, bits 12 to 31, not shifted here (consumers shift it left by
/// 12).
#[derive(Debug, PartialEq, Eq, Structural, Clone, Copy)]
pub struct UTypeParams {
    pub rd: u8,
    pub imm: i32,
}

/// The U-type fields of `inst`.
pub open spec fn spec_u_type_params(inst: u32) -> UTypeParams {
    UTypeParams {
        rd: spec_get_bits(inst as u64, 7, 11) as u8,
        imm: spec_get_bits(inst as u64, 12, 31) as i32,
    }
}

impl UTypeParams {
    /// Extracts the U-type fields from a raw word.
    pub fn from(inst: u32) -> (r: Self)
        ensures
            r == spec_u_type_params(inst),
    {
        proof {
            lemma2_to64();
        }
        Self {
            rd: get_bits(inst as u64, 7, 11) as u8,
            imm: get_bits(inst as u64, 12, 31) as i32,
        }
    }
}

/// The reconstructed branch offset is always even: its lowest bit is forced
/// to zero by the encoding, and sign extension keeps the parity.
pub proof fn lemma_b_type_offset_is_even(inst: u32)
    ensures
        spec_b_type_params(inst).imm % 2 == 0,
{
    let w = inst as u64;
    let imm1 = spec_get_bits(w, 8, 11);
    let imm2 = spec_get_bits(w, 25, 30);
    let imm3 = spec_get_bits(w, 7, 7);
    let imm4 = spec_get_bits(w, 31, 31);
    crate::util::lemma_get_bits_bound(w, 8, 11);
    crate::util::lemma_get_bits_bound(w, 25, 30);
    crate::util::lemma_get_bits_bound(w, 7, 7);
    crate::util::lemma_get_bits_bound(w, 31, 31);
    vstd::arithmetic::power2::lemma2_to64();
    let assembled = (imm4 << 12) | (imm3 << 11) | (imm2 << 5) | (imm1 << 1);
    assert(((imm4 << 12) | (imm3 << 11) | (imm2 << 5) | (imm1 << 1)) < 8192 && ((imm4 << 12) | (
    imm3 << 11) | (imm2 << 5) | (imm1 << 1)) % 2 == 0) by (bit_vector)
        requires
            imm4 < 2,
            imm3 < 2,
            imm2 < 64,
            imm1 < 16,
    ;
    let v = assembled as u32;
    assert(v == assembled);
    proof_sign_extend_keeps_parity(v, 13);
}

/// The reconstructed jump offset is always even: its lowest bit is forced to
/// zero by the encoding, and sign extension keeps the parity.
pub proof fn lemma_j_type_offset_is_even(inst: u32)
    ensures
        spec_j_type_params(inst).imm % 2 == 0,
{
    let w = inst as u64;
    let imm1 = spec_get_bits(w, 21, 30);
    let imm2 = spec_get_bits(w, 20, 20);
    let imm3 = spec_get_bits(w, 12, 19);
    let imm4 = spec_get_bits(w, 31, 31);
    crate::util::lemma_get_bits_bound(w, 21, 30);
    crate::util::lemma_get_bits_bound(w, 20, 20);
    crate::util::lemma_get_bits_bound(w, 12, 19);
    crate::util::lemma_get_bits_bound(w, 31, 31);
    vstd::arithmetic::power2::lemma2_to64();
    let assembled = (imm4 << 20) | (imm3 << 12) | (imm2 << 11) | (imm1 << 1);
    assert(((imm4 << 20) | (imm3 << 12) | (imm2 << 11) | (imm1 << 1)) < 2097152 && ((imm4 << 20)
        | (imm3 << 12) | (imm2 << 11) | (imm1 << 1)) % 2 == 0) by (bit_vector)
        requires
            imm4 < 2,
            imm3 < 256,
            imm2 < 2,
            imm1 < 1024,
    ;
    let v = assembled as u32;
    assert(v == assembled);
    proof_sign_extend_keeps_parity(v, 21);
}

/// Sign extension keeps the parity of an even field that already fits its
/// width.
proof fn proof_sign_extend_keeps_parity(v: u32, bit_width: u8)
    requires
        2 <= bit_width <= 32,
        v % 2 == 0,
        v < vstd::arithmetic::power2::pow2(bit_width as nat),
    ensures
        spec_sign_extend_32(v, bit_width) % 2 == 0,
{
    let p = vstd::arithmetic::power2::pow2(bit_width as nat);
    let h = vstd::arithmetic::power2::pow2((bit_width - 1) as nat);
    vstd::arithmetic::power2::lemma2_to64();
    assert((v as nat) % p == v as nat) by {
        vstd::arithmetic::div_mod::lemma_small_mod(v as nat, p);
    }
    assert(p == 2 * h) by {
        vstd::arithmetic::power2::lemma_pow2_adds(1, (bit_width - 1) as nat);
    }
    assert(h <= 0x8000_0000) by {
        vstd::arithmetic::power2::lemma_pow2((bit_width - 1) as nat);
        vstd::arithmetic::power2::lemma_pow2(31);
        vstd::arithmetic::power::lemma_pow_increases(2, (bit_width - 1) as nat, 31);
    }
    if v >= h {
        let m: int = v - p;
        assert(-0x8000_0000 <= m < 0);
        assert(m % 2 == 0) by (nonlinear_arith)
            requires
                v % 2 == 0,
                p % 2 == 0,
                m == v - p,
        ;
        assert(spec_sign_extend_32(v, bit_width) == m as i32);
        assert((m as i32) % 2 == 0);
    } else {
        assert(spec_sign_extend_32(v, bit_width) == v as i32);
    }
}

/// Whether `inst`'s discriminant fields structurally match the pattern: the
/// full opcode, funct3 and funct7 triple for R-type, opcode and funct3 with
/// the optional predicate for I-type, opcode and funct3 for S- and B-type,
/// and the opcode alone for U- and J-type.
pub open spec fn spec_format_matches(p: InstructionFormat, inst: u32) -> bool {
    let inst_opcode = spec_get_bits(inst as u64, 0, 6) as u32;
    let inst_funct3 = spec_get_bits(inst as u64, 12, 14) as u32;
    let inst_funct7 = spec_get_bits(inst as u64, 25, 31) as u32;
    match p {
        InstructionFormat::RType { opcode, funct3, funct7, .. } => opcode == inst_opcode
            && funct3 == inst_funct3 && funct7 == inst_funct7,
        InstructionFormat::IType { opcode, funct3, predicate, .. } => opcode == inst_opcode
            && funct3 == inst_funct3 && spec_predicate_holds(predicate, spec_i_type_params(inst)),
        InstructionFormat::SType { opcode, funct3, .. } => opcode == inst_opcode && funct3
            == inst_funct3,
        InstructionFormat::BType { opcode, funct3, .. } => opcode == inst_opcode && funct3
            == inst_funct3,
        InstructionFormat::UType { opcode, .. } => opcode == inst_opcode,
        InstructionFormat::JType { opcode, .. } => opcode == inst_opcode,
    }
}

/// Whether `inst`'s discriminant fields structurally match the pattern.
pub fn format_matches(p: &InstructionFormat, inst: u32) -> (b: bool)
    ensures
        b == spec_format_matches(*p, inst),
{
    proof {
        lemma2_to64();
    }
    let inst_opcode = get_bits(inst as u64, 0, 6) as u32;
    let inst_funct3 = get_bits(inst as u64, 12, 14) as u32;
    let inst_funct7 = get_bits(inst as u64, 25, 31) as u32;
    match p {
        InstructionFormat::RType { opcode, funct3, funct7, .. } => *opcode == inst_opcode
            && *funct3 == inst_funct3 && *funct7 == inst_funct7,
        InstructionFormat::IType { opcode, funct3, predicate, .. } => *opcode == inst_opcode
            && *funct3 == inst_funct3 && predicate_holds(*predicate, &ITypeParams::from(inst)),
        InstructionFormat::SType { opcode, funct3, .. } => *opcode == inst_opcode && *funct3
            == inst_funct3,
        InstructionFormat::BType { opcode, funct3, .. } => *opcode == inst_opcode && *funct3
            == inst_funct3,
        InstructionFormat::UType { opcode, .. } => *opcode == inst_opcode,
        InstructionFormat::JType { opcode, .. } => *opcode == inst_opcode,
    }
}

/// The ordered pattern table: one entry per recognized instruction, more
/// specific discriminants placed so that the first structural match is the
/// right one.
pub open spec fn spec_instruction_patterns() -> Seq<InstructionFormat> {
    seq![
        (InstructionFormat::RType { opcode: 0b0110011, funct3: 0x0, funct7: 0x00, op: ROp::ADD }),
        (InstructionFormat::RType { opcode: 0b0110011, funct3: 0x0, funct7: 0x20, op: ROp::SUB }),
        (InstructionFormat::RType { opcode: 0b0110011, funct3: 0x4, funct7: 0x00, op: ROp::XOR }),
        (InstructionFormat::RType { opcode: 0b0110011, funct3: 0x6, funct7: 0x00, op: ROp::OR }),
        (InstructionFormat::RType { opcode: 0b0110011, funct3: 0x7, funct7: 0x00, op: ROp::AND }),
        (InstructionFormat::RType { opcode: 0b0110011, funct3: 0x1, funct7: 0x00, op: ROp::SLL }),
        (InstructionFormat::RType { opcode: 0b0110011, funct3: 0x5, funct7: 0x00, op: ROp::SRL }),
        (InstructionFormat::RType { opcode: 0b0110011, funct3: 0x5, funct7: 0x20, op: ROp::SRA }),
        (InstructionFormat::RType { opcode: 0b0110011, funct3: 0x2, funct7: 0x00, op: ROp::SLT }),
        (InstructionFormat::RType { opcode: 0b0110011, funct3: 0x3, funct7: 0x00, op: ROp::SLTU }),
        (InstructionFormat::IType { opcode: 0b0010011, funct3: 0x0, predicate: IPredicate::Always, op: IOp::ADDI }),
        (InstructionFormat::IType { opcode: 0b0010011, funct3: 0x4, predicate: IPredicate::Always, op: IOp::XORI }),
        (InstructionFormat::IType { opcode: 0b0010011, funct3: 0x6, predicate: IPredicate::Always, op: IOp::ORI }),
        (InstructionFormat::IType { opcode: 0b0010011, funct3: 0x7, predicate: IPredicate::Always, op: IOp::ANDI }),
        (InstructionFormat::IType { opcode: 0b0010011, funct3: 0x1, predicate: IPredicate::UpperImm(0x00), op: IOp::SLLI }),
        (InstructionFormat::IType { opcode: 0b0010011, funct3: 0x5, predicate: IPredicate::UpperImm(0x00), op: IOp::SRLI }),
        (InstructionFormat::IType { opcode: 0b0010011, funct3: 0x5, predicate: IPredicate::UpperImm(0x20), op: IOp::SRAI }),
        (InstructionFormat::IType { opcode: 0b0010011, funct3: 0x2, predicate: IPredicate::Always, op: IOp::SLTI }),
        (InstructionFormat::IType { opcode: 0b0010011, funct3: 0x3, predicate: IPredicate::Always, op: IOp::SLTIU }),
        (InstructionFormat::IType { opcode: 0b0000011, funct3: 0x0, predicate: IPredicate::Always, op: IOp::LB }),
        (InstructionFormat::IType { opcode: 0b0000011, funct3: 0x1, predicate: IPredicate::Always, op: IOp::LH }),
        (InstructionFormat::IType { opcode: 0b0000011, funct3: 0x2, predicate: IPredicate::Always, op: IOp::LW }),
        (InstructionFormat::IType { opcode: 0b0000011, funct3: 0x4, predicate: IPredicate::Always, op: IOp::LBU }),
        (InstructionFormat::IType { opcode: 0b0000011, funct3: 0x5, predicate: IPredicate::Always, op: IOp::LHU }),
        (InstructionFormat::SType { opcode: 0b0100011, funct3: 0x0, op: SOp::SB }),
        (InstructionFormat::SType { opcode: 0b0100011, funct3: 0x1, op: SOp::SH }),
        (InstructionFormat::SType { opcode: 0b0100011, funct3: 0x2, op: SOp::SW }),
        (InstructionFormat::BType { opcode: 0b1100011, funct3: 0x0, op: BOp::BEQ }),
        (InstructionFormat::BType { opcode: 0b1100011, funct3: 0x1, op: BOp::BNE }),
        (InstructionFormat::BType { opcode: 0b1100011, funct3: 0x4, op: BOp::BLT }),
        (InstructionFormat::BType { opcode: 0b1100011, funct3: 0x5, op: BOp::BGE }),
        (InstructionFormat::BType { opcode: 0b1100011, funct3: 0x6, op: BOp::BLTU }),
        (InstructionFormat::BType { opcode: 0b1100011, funct3: 0x7, op: BOp::BGEU }),
        (InstructionFormat::JType { opcode: 0b1101111, op: JOp::JAL }),
        (InstructionFormat::IType { opcode: 0b1100111, funct3: 0x0, predicate: IPredicate::Always, op: IOp::JALR }),
        (InstructionFormat::UType { opcode: 0b0110111, op: UOp::LUI }),
        (InstructionFormat::UType { opcode: 0b0010111, op: UOp::AUIPC }),
        (InstructionFormat::IType { opcode: 0b1110011, funct3: 0x0, predicate: IPredicate::ImmIs(0x0), op: IOp::ECALL }),
        (InstructionFormat::IType { opcode: 0b1110011, funct3: 0x0, predicate: IPredicate::ImmIs(0x1), op: IOp::EBREAK }),
        (InstructionFormat::IType { opcode: 0b0000011, funct3: 0x6, predicate: IPredicate::Always, op: IOp::LWU }),
        (InstructionFormat::IType { opcode: 0b0000011, funct3: 0x3, predicate: IPredicate::Always, op: IOp::LD }),
        (InstructionFormat::SType { opcode: 0b0100011, funct3: 0x3, op: SOp::SD }),
        (InstructionFormat::IType { opcode: 0b0011011, funct3: 0x0, predicate: IPredicate::Always, op: IOp::ADDIW }),
        (InstructionFormat::IType { opcode: 0b0011011, funct3: 0x1, predicate: IPredicate::UpperImm(0x00), op: IOp::SLLIW }),
        (InstructionFormat::IType { opcode: 0b0011011, funct3: 0x5, predicate: IPredicate::UpperImm(0x00), op: IOp::SRLIW }),
        (InstructionFormat::IType { opcode: 0b0011011, funct3: 0x5, predicate: IPredicate::UpperImm(0x20), op: IOp::SRAIW }),
        (InstructionFormat::RType { opcode: 0b0111011, funct3: 0x0, funct7: 0x00, op: ROp::ADDW }),
        (InstructionFormat::RType { opcode: 0b0111011, funct3: 0x0, funct7: 0x20, op: ROp::SUBW }),
        (InstructionFormat::RType { opcode: 0b0111011, funct3: 0x1, funct7: 0x00, op: ROp::SLLW }),
        (InstructionFormat::RType { opcode: 0b0111011, funct3: 0x5, funct7: 0x00, op: ROp::SRLW }),
        (InstructionFormat::RType { opcode: 0b0111011, funct3: 0x5, funct7: 0x20, op: ROp::SRAW }),
        (InstructionFormat::RType { opcode: 0b0110011, funct3: 0x0, funct7: 0x01, op: ROp::MUL }),
        (InstructionFormat::RType { opcode: 0b0110011, funct3: 0x1, funct7: 0x01, op: ROp::MULH }),
        (InstructionFormat::RType { opcode: 0b0110011, funct3: 0x2, funct7: 0x01, op: ROp::MULSU }),
        (InstructionFormat::RType { opcode: 0b0110011, funct3: 0x3, funct7: 0x01, op: ROp::MULU }),
        (InstructionFormat::RType { opcode: 0b0110011, funct3: 0x4, funct7: 0x01, op: ROp::DIV }),
        (InstructionFormat::RType { opcode: 0b0110011, funct3: 0x5, funct7: 0x01, op: ROp::DIVU }),
        (InstructionFormat::RType { opcode: 0b0110011, funct3: 0x6, funct7: 0x01, op: ROp::REM }),
        (InstructionFormat::RType { opcode: 0b0110011, funct3: 0x7, funct7: 0x01, op: ROp::REMU }),
        (InstructionFormat::RType { opcode: 0b0111011, funct3: 0x0, funct7: 0x01, op: ROp::MULW }),
        (InstructionFormat::RType { opcode: 0b0111011, funct3: 0x4, funct7: 0x01, op: ROp::DIVW }),
        (InstructionFormat::RType { opcode: 0b0111011, funct3: 0x5, funct7: 0x01, op: ROp::DIVWU }),
        (InstructionFormat::RType { opcode: 0b0111011, funct3: 0x6, funct7: 0x01, op: ROp::REMW }),
        (InstructionFormat::RType { opcode: 0b0111011, funct3: 0x7, funct7: 0x01, op: ROp::REMWU }),
    ]
}

/// Builds the ordered pattern table the decoder walks.
#[verifier::rlimit(60)]
pub fn instruction_patterns() -> (v: Vec<InstructionFormat>)
    ensures
        v@ == spec_instruction_patterns(),
{
    let mut v: Vec<InstructionFormat> = Vec::new();
    v.push(InstructionFormat::RType { opcode: 0b0110011, funct3: 0x0, funct7: 0x00, op: ROp::ADD });
    v.push(InstructionFormat::RType { opcode: 0b0110011, funct3: 0x0, funct7: 0x20, op: ROp::SUB });
    v.push(InstructionFormat::RType { opcode: 0b0110011, funct3: 0x4, funct7: 0x00, op: ROp::XOR });
    v.push(InstructionFormat::RType { opcode: 0b0110011, funct3: 0x6, funct7: 0x00, op: ROp::OR });
    v.push(InstructionFormat::RType { opcode: 0b0110011, funct3: 0x7, funct7: 0x00, op: ROp::AND });
    v.push(InstructionFormat::RType { opcode: 0b0110011, funct3: 0x1, funct7: 0x00, op: ROp::SLL });
    v.push(InstructionFormat::RType { opcode: 0b0110011, funct3: 0x5, funct7: 0x00, op: ROp::SRL });
    v.push(InstructionFormat::RType { opcode: 0b0110011, funct3: 0x5, funct7: 0x20, op: ROp::SRA });
    v.push(InstructionFormat::RType { opcode: 0b0110011, funct3: 0x2, funct7: 0x00, op: ROp::SLT });
    v.push(InstructionFormat::RType { opcode: 0b0110011, funct3: 0x3, funct7: 0x00, op: ROp::SLTU });
    v.push(InstructionFormat::IType { opcode: 0b0010011, funct3: 0x0, predicate: IPredicate::Always, op: IOp::ADDI });
    v.push(InstructionFormat::IType { opcode: 0b0010011, funct3: 0x4, predicate: IPredicate::Always, op: IOp::XORI });
    v.push(InstructionFormat::IType { opcode: 0b0010011, funct3: 0x6, predicate: IPredicate::Always, op: IOp::ORI });
    v.push(InstructionFormat::IType { opcode: 0b0010011, funct3: 0x7, predicate: IPredicate::Always, op: IOp::ANDI });
    v.push(InstructionFormat::IType { opcode: 0b0010011, funct3: 0x1, predicate: IPredicate::UpperImm(0x00), op: IOp::SLLI });
    v.push(InstructionFormat::IType { opcode: 0b0010011, funct3: 0x5, predicate: IPredicate::UpperImm(0x00), op: IOp::SRLI });
    v.push(InstructionFormat::IType { opcode: 0b0010011, funct3: 0x5, predicate: IPredicate::UpperImm(0x20), op: IOp::SRAI });
    v.push(InstructionFormat::IType { opcode: 0b0010011, funct3: 0x2, predicate: IPredicate::Always, op: IOp::SLTI });
    v.push(InstructionFormat::IType { opcode: 0b0010011, funct3: 0x3, predicate: IPredicate::Always, op: IOp::SLTIU });
    v.push(InstructionFormat::IType { opcode: 0b0000011, funct3: 0x0, predicate: IPredicate::Always, op: IOp::LB });
    v.push(InstructionFormat::IType { opcode: 0b0000011, funct3: 0x1, predicate: IPredicate::Always, op: IOp::LH });
    v.push(InstructionFormat::IType { opcode: 0b0000011, funct3: 0x2, predicate: IPredicate::Always, op: IOp::LW });
    v.push(InstructionFormat::IType { opcode: 0b0000011, funct3: 0x4, predicate: IPredicate::Always, op: IOp::LBU });
    v.push(InstructionFormat::IType { opcode: 0b0000011, funct3: 0x5, predicate: IPredicate::Always, op: IOp::LHU });
    v.push(InstructionFormat::SType { opcode: 0b0100011, funct3: 0x0, op: SOp::SB });
    v.push(InstructionFormat::SType { opcode: 0b0100011, funct3: 0x1, op: SOp::SH });
    v.push(InstructionFormat::SType { opcode: 0b0100011, funct3: 0x2, op: SOp::SW });
    v.push(InstructionFormat::BType { opcode: 0b1100011, funct3: 0x0, op: BOp::BEQ });
    v.push(InstructionFormat::BType { opcode: 0b1100011, funct3: 0x1, op: BOp::BNE });
    v.push(InstructionFormat::BType { opcode: 0b1100011, funct3: 0x4, op: BOp::BLT });
    v.push(InstructionFormat::BType { opcode: 0b1100011, funct3: 0x5, op: BOp::BGE });
    v.push(InstructionFormat::BType { opcode: 0b1100011, funct3: 0x6, op: BOp::BLTU });
    v.push(InstructionFormat::BType { opcode: 0b1100011, funct3: 0x7, op: BOp::BGEU });
    v.push(InstructionFormat::JType { opcode: 0b1101111, op: JOp::JAL });
    v.push(InstructionFormat::IType { opcode: 0b1100111, funct3: 0x0, predicate: IPredicate::Always, op: IOp::JALR });
    v.push(InstructionFormat::UType { opcode: 0b0110111, op: UOp::LUI });
    v.push(InstructionFormat::UType { opcode: 0b0010111, op: UOp::AUIPC });
    v.push(InstructionFormat::IType { opcode: 0b1110011, funct3: 0x0, predicate: IPredicate::ImmIs(0x0), op: IOp::ECALL });
    v.push(InstructionFormat::IType { opcode: 0b1110011, funct3: 0x0, predicate: IPredicate::ImmIs(0x1), op: IOp::EBREAK });
    v.push(InstructionFormat::IType { opcode: 0b0000011, funct3: 0x6, predicate: IPredicate::Always, op: IOp::LWU });
    v.push(InstructionFormat::IType { opcode: 0b0000011, funct3: 0x3, predicate: IPredicate::Always, op: IOp::LD });
    v.push(InstructionFormat::SType { opcode: 0b0100011, funct3: 0x3, op: SOp::SD });
    v.push(InstructionFormat::IType { opcode: 0b0011011, funct3: 0x0, predicate: IPredicate::Always, op: IOp::ADDIW });
    v.push(InstructionFormat::IType { opcode: 0b0011011, funct3: 0x1, predicate: IPredicate::UpperImm(0x00), op: IOp::SLLIW });
    v.push(InstructionFormat::IType { opcode: 0b0011011, funct3: 0x5, predicate: IPredicate::UpperImm(0x00), op: IOp::SRLIW });
    v.push(InstructionFormat::IType { opcode: 0b0011011, funct3: 0x5, predicate: IPredicate::UpperImm(0x20), op: IOp::SRAIW });
    v.push(InstructionFormat::RType { opcode: 0b0111011, funct3: 0x0, funct7: 0x00, op: ROp::ADDW });
    v.push(InstructionFormat::RType { opcode: 0b0111011, funct3: 0x0, funct7: 0x20, op: ROp::SUBW });
    v.push(InstructionFormat::RType { opcode: 0b0111011, funct3: 0x1, funct7: 0x00, op: ROp::SLLW });
    v.push(InstructionFormat::RType { opcode: 0b0111011, funct3: 0x5, funct7: 0x00, op: ROp::SRLW });
    v.push(InstructionFormat::RType { opcode: 0b0111011, funct3: 0x5, funct7: 0x20, op: ROp::SRAW });
    v.push(InstructionFormat::RType { opcode: 0b0110011, funct3: 0x0, funct7: 0x01, op: ROp::MUL });
    v.push(InstructionFormat::RType { opcode: 0b0110011, funct3: 0x1, funct7: 0x01, op: ROp::MULH });
    v.push(InstructionFormat::RType { opcode: 0b0110011, funct3: 0x2, funct7: 0x01, op: ROp::MULSU });
    v.push(InstructionFormat::RType { opcode: 0b0110011, funct3: 0x3, funct7: 0x01, op: ROp::MULU });
    v.push(InstructionFormat::RType { opcode: 0b0110011, funct3: 0x4, funct7: 0x01, op: ROp::DIV });
    v.push(InstructionFormat::RType { opcode: 0b0110011, funct3: 0x5, funct7: 0x01, op: ROp::DIVU });
    v.push(InstructionFormat::RType { opcode: 0b0110011, funct3: 0x6, funct7: 0x01, op: ROp::REM });
    v.push(InstructionFormat::RType { opcode: 0b0110011, funct3: 0x7, funct7: 0x01, op: ROp::REMU });
    v.push(InstructionFormat::RType { opcode: 0b0111011, funct3: 0x0, funct7: 0x01, op: ROp::MULW });
    v.push(InstructionFormat::RType { opcode: 0b0111011, funct3: 0x4, funct7: 0x01, op: ROp::DIVW });
    v.push(InstructionFormat::RType { opcode: 0b0111011, funct3: 0x5, funct7: 0x01, op: ROp::DIVWU });
    v.push(InstructionFormat::RType { opcode: 0b0111011, funct3: 0x6, funct7: 0x01, op: ROp::REMW });
    v.push(InstructionFormat::RType { opcode: 0b0111011, funct3: 0x7, funct7: 0x01, op: ROp::REMWU });
    proof {
        assert(v@ =~= spec_instruction_patterns());
    }
    v
}

} // verus!
