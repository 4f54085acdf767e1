//! Decoder tests: one hand-built word per mnemonic, format discrimination,
//! immediate sign extension, and the undefined-word sentinel.

use riscv_emu::isa::decode::{BTypeParams, ITypeParams, JTypeParams, RTypeParams, STypeParams,
    UTypeParams};
use riscv_emu::isa::Instruction;
use riscv_emu::util::{sign_extend_32, sign_extend_64, unsigned_32};

fn r_word(opcode: u32, funct3: u32, funct7: u32, rs1: u32, rs2: u32, rd: u32) -> u32 {
    opcode | (rd << 7) | (funct3 << 12) | (rs1 << 15) | (rs2 << 20) | (funct7 << 25)
}

fn i_word(opcode: u32, funct3: u32, rs1: u32, imm12: u32, rd: u32) -> u32 {
    opcode | (rd << 7) | (funct3 << 12) | (rs1 << 15) | ((imm12 & 0xfff) << 20)
}

fn s_word(opcode: u32, funct3: u32, rs1: u32, rs2: u32, imm12: u32) -> u32 {
    opcode | ((imm12 & 0x1f) << 7) | (funct3 << 12) | (rs1 << 15) | (rs2 << 20)
        | (((imm12 >> 5) & 0x7f) << 25)
}

fn b_word(funct3: u32, rs1: u32, rs2: u32, imm13: u32) -> u32 {
    0b1100011 | (((imm13 >> 11) & 1) << 7) | (((imm13 >> 1) & 0xf) << 8) | (funct3 << 12)
        | (rs1 << 15) | (rs2 << 20) | (((imm13 >> 5) & 0x3f) << 25) | (((imm13 >> 12) & 1) << 31)
}

fn j_word(rd: u32, imm21: u32) -> u32 {
    0b1101111 | (rd << 7) | (((imm21 >> 12) & 0xff) << 12) | (((imm21 >> 11) & 1) << 20)
        | (((imm21 >> 1) & 0x3ff) << 21) | (((imm21 >> 20) & 1) << 31)
}

fn u_word(opcode: u32, rd: u32, imm20: u32) -> u32 {
    opcode | (rd << 7) | (imm20 << 12)
}

#[test]
fn it_decodes_every_r_type_mnemonic() {
    assert_eq!(Instruction::decode(r_word(0b0110011, 0, 0x00, 3, 9, 14)), Instruction::ADD(RTypeParams { rs1: 3, rs2: 9, rd: 14 }));
    assert_eq!(Instruction::decode(r_word(0b0110011, 0, 0x20, 3, 9, 14)), Instruction::SUB(RTypeParams { rs1: 3, rs2: 9, rd: 14 }));
    assert_eq!(Instruction::decode(r_word(0b0110011, 4, 0x00, 3, 9, 14)), Instruction::XOR(RTypeParams { rs1: 3, rs2: 9, rd: 14 }));
    assert_eq!(Instruction::decode(r_word(0b0110011, 6, 0x00, 3, 9, 14)), Instruction::OR(RTypeParams { rs1: 3, rs2: 9, rd: 14 }));
    assert_eq!(Instruction::decode(r_word(0b0110011, 7, 0x00, 3, 9, 14)), Instruction::AND(RTypeParams { rs1: 3, rs2: 9, rd: 14 }));
    assert_eq!(Instruction::decode(r_word(0b0110011, 1, 0x00, 3, 9, 14)), Instruction::SLL(RTypeParams { rs1: 3, rs2: 9, rd: 14 }));
    assert_eq!(Instruction::decode(r_word(0b0110011, 5, 0x00, 3, 9, 14)), Instruction::SRL(RTypeParams { rs1: 3, rs2: 9, rd: 14 }));
    assert_eq!(Instruction::decode(r_word(0b0110011, 5, 0x20, 3, 9, 14)), Instruction::SRA(RTypeParams { rs1: 3, rs2: 9, rd: 14 }));
    assert_eq!(Instruction::decode(r_word(0b0110011, 2, 0x00, 3, 9, 14)), Instruction::SLT(RTypeParams { rs1: 3, rs2: 9, rd: 14 }));
    assert_eq!(Instruction::decode(r_word(0b0110011, 3, 0x00, 3, 9, 14)), Instruction::SLTU(RTypeParams { rs1: 3, rs2: 9, rd: 14 }));
    assert_eq!(Instruction::decode(r_word(0b0111011, 0, 0x00, 3, 9, 14)), Instruction::ADDW(RTypeParams { rs1: 3, rs2: 9, rd: 14 }));
    assert_eq!(Instruction::decode(r_word(0b0111011, 0, 0x20, 3, 9, 14)), Instruction::SUBW(RTypeParams { rs1: 3, rs2: 9, rd: 14 }));
    assert_eq!(Instruction::decode(r_word(0b0111011, 1, 0x00, 3, 9, 14)), Instruction::SLLW(RTypeParams { rs1: 3, rs2: 9, rd: 14 }));
    assert_eq!(Instruction::decode(r_word(0b0111011, 5, 0x00, 3, 9, 14)), Instruction::SRLW(RTypeParams { rs1: 3, rs2: 9, rd: 14 }));
    assert_eq!(Instruction::decode(r_word(0b0111011, 5, 0x20, 3, 9, 14)), Instruction::SRAW(RTypeParams { rs1: 3, rs2: 9, rd: 14 }));
    assert_eq!(Instruction::decode(r_word(0b0110011, 0, 0x01, 3, 9, 14)), Instruction::MUL(RTypeParams { rs1: 3, rs2: 9, rd: 14 }));
    assert_eq!(Instruction::decode(r_word(0b0110011, 1, 0x01, 3, 9, 14)), Instruction::MULH(RTypeParams { rs1: 3, rs2: 9, rd: 14 }));
    assert_eq!(Instruction::decode(r_word(0b0110011, 2, 0x01, 3, 9, 14)), Instruction::MULSU(RTypeParams { rs1: 3, rs2: 9, rd: 14 }));
    assert_eq!(Instruction::decode(r_word(0b0110011, 3, 0x01, 3, 9, 14)), Instruction::MULU(RTypeParams { rs1: 3, rs2: 9, rd: 14 }));
    assert_eq!(Instruction::decode(r_word(0b0110011, 4, 0x01, 3, 9, 14)), Instruction::DIV(RTypeParams { rs1: 3, rs2: 9, rd: 14 }));
    assert_eq!(Instruction::decode(r_word(0b0110011, 5, 0x01, 3, 9, 14)), Instruction::DIVU(RTypeParams { rs1: 3, rs2: 9, rd: 14 }));
    assert_eq!(Instruction::decode(r_word(0b0110011, 6, 0x01, 3, 9, 14)), Instruction::REM(RTypeParams { rs1: 3, rs2: 9, rd: 14 }));
    assert_eq!(Instruction::decode(r_word(0b0110011, 7, 0x01, 3, 9, 14)), Instruction::REMU(RTypeParams { rs1: 3, rs2: 9, rd: 14 }));
    assert_eq!(Instruction::decode(r_word(0b0111011, 0, 0x01, 3, 9, 14)), Instruction::MULW(RTypeParams { rs1: 3, rs2: 9, rd: 14 }));
    assert_eq!(Instruction::decode(r_word(0b0111011, 4, 0x01, 3, 9, 14)), Instruction::DIVW(RTypeParams { rs1: 3, rs2: 9, rd: 14 }));
    assert_eq!(Instruction::decode(r_word(0b0111011, 5, 0x01, 3, 9, 14)), Instruction::DIVWU(RTypeParams { rs1: 3, rs2: 9, rd: 14 }));
    assert_eq!(Instruction::decode(r_word(0b0111011, 6, 0x01, 3, 9, 14)), Instruction::REMW(RTypeParams { rs1: 3, rs2: 9, rd: 14 }));
    assert_eq!(Instruction::decode(r_word(0b0111011, 7, 0x01, 3, 9, 14)), Instruction::REMWU(RTypeParams { rs1: 3, rs2: 9, rd: 14 }));
}

#[test]
fn it_decodes_every_i_type_mnemonic() {
    assert_eq!(Instruction::decode(i_word(0b0010011, 0, 6, 37, 11)), Instruction::ADDI(ITypeParams { rs1: 6, rd: 11, imm: 37 }));
    assert_eq!(Instruction::decode(i_word(0b0010011, 4, 6, 37, 11)), Instruction::XORI(ITypeParams { rs1: 6, rd: 11, imm: 37 }));
    assert_eq!(Instruction::decode(i_word(0b0010011, 6, 6, 37, 11)), Instruction::ORI(ITypeParams { rs1: 6, rd: 11, imm: 37 }));
    assert_eq!(Instruction::decode(i_word(0b0010011, 7, 6, 37, 11)), Instruction::ANDI(ITypeParams { rs1: 6, rd: 11, imm: 37 }));
    assert_eq!(Instruction::decode(i_word(0b0010011, 2, 6, 37, 11)), Instruction::SLTI(ITypeParams { rs1: 6, rd: 11, imm: 37 }));
    assert_eq!(Instruction::decode(i_word(0b0010011, 3, 6, 37, 11)), Instruction::SLTIU(ITypeParams { rs1: 6, rd: 11, imm: 37 }));
    assert_eq!(Instruction::decode(i_word(0b0000011, 0, 6, 37, 11)), Instruction::LB(ITypeParams { rs1: 6, rd: 11, imm: 37 }));
    assert_eq!(Instruction::decode(i_word(0b0000011, 1, 6, 37, 11)), Instruction::LH(ITypeParams { rs1: 6, rd: 11, imm: 37 }));
    assert_eq!(Instruction::decode(i_word(0b0000011, 2, 6, 37, 11)), Instruction::LW(ITypeParams { rs1: 6, rd: 11, imm: 37 }));
    assert_eq!(Instruction::decode(i_word(0b0000011, 4, 6, 37, 11)), Instruction::LBU(ITypeParams { rs1: 6, rd: 11, imm: 37 }));
    assert_eq!(Instruction::decode(i_word(0b0000011, 5, 6, 37, 11)), Instruction::LHU(ITypeParams { rs1: 6, rd: 11, imm: 37 }));
    assert_eq!(Instruction::decode(i_word(0b0000011, 6, 6, 37, 11)), Instruction::LWU(ITypeParams { rs1: 6, rd: 11, imm: 37 }));
    assert_eq!(Instruction::decode(i_word(0b0000011, 3, 6, 37, 11)), Instruction::LD(ITypeParams { rs1: 6, rd: 11, imm: 37 }));
    assert_eq!(Instruction::decode(i_word(0b1100111, 0, 6, 37, 11)), Instruction::JALR(ITypeParams { rs1: 6, rd: 11, imm: 37 }));
    assert_eq!(Instruction::decode(i_word(0b0011011, 0, 6, 37, 11)), Instruction::ADDIW(ITypeParams { rs1: 6, rd: 11, imm: 37 }));
    assert_eq!(Instruction::decode(i_word(0b0010011, 1, 6, 0xd, 11)), Instruction::SLLI(ITypeParams { rs1: 6, rd: 11, imm: 13 }));
    assert_eq!(Instruction::decode(i_word(0b0010011, 5, 6, 0xd, 11)), Instruction::SRLI(ITypeParams { rs1: 6, rd: 11, imm: 13 }));
    assert_eq!(Instruction::decode(i_word(0b0010011, 5, 6, 0x40d, 11)), Instruction::SRAI(ITypeParams { rs1: 6, rd: 11, imm: 1037 }));
    assert_eq!(Instruction::decode(i_word(0b0011011, 1, 6, 0xd, 11)), Instruction::SLLIW(ITypeParams { rs1: 6, rd: 11, imm: 13 }));
    assert_eq!(Instruction::decode(i_word(0b0011011, 5, 6, 0xd, 11)), Instruction::SRLIW(ITypeParams { rs1: 6, rd: 11, imm: 13 }));
    assert_eq!(Instruction::decode(i_word(0b0011011, 5, 6, 0x40d, 11)), Instruction::SRAIW(ITypeParams { rs1: 6, rd: 11, imm: 1037 }));
}

#[test]
fn it_decodes_every_store_mnemonic() {
    assert_eq!(Instruction::decode(s_word(0b0100011, 0, 6, 9, 321)), Instruction::SB(STypeParams { rs1: 6, rs2: 9, imm: 321 }));
    assert_eq!(Instruction::decode(s_word(0b0100011, 1, 6, 9, 321)), Instruction::SH(STypeParams { rs1: 6, rs2: 9, imm: 321 }));
    assert_eq!(Instruction::decode(s_word(0b0100011, 2, 6, 9, 321)), Instruction::SW(STypeParams { rs1: 6, rs2: 9, imm: 321 }));
    assert_eq!(Instruction::decode(s_word(0b0100011, 3, 6, 9, 321)), Instruction::SD(STypeParams { rs1: 6, rs2: 9, imm: 321 }));
}

#[test]
fn it_decodes_every_branch_mnemonic() {
    assert_eq!(Instruction::decode(b_word(0, 6, 9, 2040)), Instruction::BEQ(BTypeParams { rs1: 6, rs2: 9, imm: 2040 }));
    assert_eq!(Instruction::decode(b_word(1, 6, 9, 2040)), Instruction::BNE(BTypeParams { rs1: 6, rs2: 9, imm: 2040 }));
    assert_eq!(Instruction::decode(b_word(4, 6, 9, 2040)), Instruction::BLT(BTypeParams { rs1: 6, rs2: 9, imm: 2040 }));
    assert_eq!(Instruction::decode(b_word(5, 6, 9, 2040)), Instruction::BGE(BTypeParams { rs1: 6, rs2: 9, imm: 2040 }));
    assert_eq!(Instruction::decode(b_word(6, 6, 9, 2040)), Instruction::BLTU(BTypeParams { rs1: 6, rs2: 9, imm: 2040 }));
    assert_eq!(Instruction::decode(b_word(7, 6, 9, 2040)), Instruction::BGEU(BTypeParams { rs1: 6, rs2: 9, imm: 2040 }));
}

#[test]
fn it_decodes_jumps_upper_immediates_and_environment() {
    assert_eq!(Instruction::decode(u_word(0b0110111, 11, 0xabcde)), Instruction::LUI(UTypeParams { rd: 11, imm: 0xabcde }));
    assert_eq!(Instruction::decode(u_word(0b0010111, 11, 0xabcde)), Instruction::AUIPC(UTypeParams { rd: 11, imm: 0xabcde }));
    assert_eq!(Instruction::decode(j_word(1, 2048)), Instruction::JAL(JTypeParams { rd: 1, imm: 2048 }));
    assert_eq!(Instruction::decode(i_word(0b1110011, 0, 0, 0, 0)), Instruction::ECALL(ITypeParams { rs1: 0, rd: 0, imm: 0 }));
    assert_eq!(Instruction::decode(i_word(0b1110011, 0, 0, 1, 0)), Instruction::EBREAK(ITypeParams { rs1: 0, rd: 0, imm: 1 }));
}

#[test]
fn instruction_it_decodes_add_and_sub_correctly() {
    let inst = Instruction::decode(0b0000000_01100_00111_000_10101_0110011);
    let expected = Instruction::ADD(RTypeParams { rs1: 7, rs2: 12, rd: 21 });
    assert_eq!(inst, expected);

    let inst = Instruction::decode(0b0000000_01100_00111_010_10101_0110011);
    let expected = Instruction::ADD(RTypeParams { rs1: 7, rs2: 12, rd: 21 });
    assert_ne!(inst, expected);

    let inst = Instruction::decode(0b0100000_01100_00111_000_10101_0110011);
    let expected = Instruction::SUB(RTypeParams { rs1: 7, rs2: 12, rd: 21 });
    assert_eq!(inst, expected);
}

#[test]
fn instruction_it_decodes_srli_and_srai_correctly() {
    let inst = Instruction::decode(0b0000000_01100_00111_101_10101_0010011);
    let expected = Instruction::SRLI(ITypeParams { rs1: 7, rd: 21, imm: 12 });
    assert_eq!(inst, expected);

    let inst = Instruction::decode(0b0100000_01100_00111_101_10101_0010011);
    let expected = Instruction::SRAI(ITypeParams { rs1: 7, rd: 21, imm: 1036 });
    assert_eq!(inst, expected);
}

#[test]
fn instruction_it_decodes_store_instrs_correctly() {
    let inst = Instruction::decode(0b0100011_01100_00111_001_10101_0100011);
    let expected = Instruction::SH(STypeParams { rs1: 7, rs2: 12, imm: 1141 });
    assert_eq!(inst, expected);
}

#[test]
fn instruction_it_decodes_branch_instrs_correctly() {
    let inst = Instruction::decode(0b0100011_01100_00111_000_10101_1100011);
    let expected = Instruction::BEQ(BTypeParams { rs1: 7, rs2: 12, imm: 3188 });
    assert_eq!(inst, expected);
}

#[test]
fn it_decodes_ecall_and_ebreak_correctly() {
    let inst = Instruction::decode(0b0000000_00000_00111_000_10101_1110011);
    let expected = Instruction::ECALL(ITypeParams { rs1: 7, rd: 21, imm: 0 });
    assert_eq!(inst, expected);

    let inst = Instruction::decode(0b0000000_00001_00111_000_10101_1110011);
    let expected = Instruction::EBREAK(ITypeParams { rs1: 7, rd: 21, imm: 1 });
    assert_eq!(inst, expected);
}

#[test]
fn it_decodes_correctly() {
    let inst = Instruction::decode(0x00850793);
    let expected = Instruction::ADDI(ITypeParams { rs1: 10, rd: 15, imm: 8 });
    assert_eq!(inst, expected);
}

#[test]
fn instructions_it_decodes_add_and_sub_correctly() {
    let inst = Instruction::decode(0b0000000_01100_00111_000_10101_0110011);
    let expected = Instruction::ADD(RTypeParams { rs1: 7, rs2: 12, rd: 21 });
    assert_eq!(inst, expected);

    let inst = Instruction::decode(0b0000000_01100_00111_010_10101_0110011);
    let expected = Instruction::ADD(RTypeParams { rs1: 7, rs2: 12, rd: 21 });
    assert_ne!(inst, expected);

    let inst = Instruction::decode(0b0100000_01100_00111_000_10101_0110011);
    let expected = Instruction::SUB(RTypeParams { rs1: 7, rs2: 12, rd: 21 });
    assert_eq!(inst, expected);
}

#[test]
fn instructions_it_decodes_srli_and_srai_correctly() {
    let inst = Instruction::decode(0b0000000_01100_00111_101_10101_0010011);
    let expected = Instruction::SRLI(ITypeParams { rs1: 7, rd: 21, imm: 12 });
    assert_eq!(inst, expected);

    let inst = Instruction::decode(0b0100000_01100_00111_101_10101_0010011);
    let expected = Instruction::SRAI(ITypeParams { rs1: 7, rd: 21, imm: 1036 });
    assert_eq!(inst, expected);
}

#[test]
fn instructions_it_decodes_store_instrs_correctly() {
    let inst = Instruction::decode(0b0100011_01100_00111_001_10101_0100011);
    let expected = Instruction::SH(STypeParams { rs1: 7, rs2: 12, imm: 1141 });
    assert_eq!(inst, expected);
}

#[test]
fn instructions_it_decodes_branch_instrs_correctly() {
    let inst = Instruction::decode(0b0100011_01100_00111_000_10101_1100011);
    let expected = Instruction::BEQ(BTypeParams { rs1: 7, rs2: 12, imm: 3188 });
    assert_eq!(inst, expected);
}

#[test]
fn it_sign_extends_negative_immediates() {
    // I-type: all-ones immediate field is -1.
    let inst = Instruction::decode(i_word(0b0010011, 0, 2, 0xfff, 3));
    assert_eq!(inst, Instruction::ADDI(ITypeParams { rs1: 2, rd: 3, imm: -1 }));

    // S-type: a split immediate of -8.
    let inst = Instruction::decode(s_word(0b0100011, 2, 4, 5, (-8i32 as u32) & 0xfff));
    assert_eq!(inst, Instruction::SW(STypeParams { rs1: 4, rs2: 5, imm: -8 }));

    // B-type: a branch offset of -2, reassembled from its four fields.
    let inst = Instruction::decode(b_word(0, 4, 5, (-2i32 as u32) & 0x1fff));
    assert_eq!(inst, Instruction::BEQ(BTypeParams { rs1: 4, rs2: 5, imm: -2 }));

    // J-type: a jump offset of -2, reassembled from its four fields.
    let inst = Instruction::decode(j_word(1, (-2i32 as u32) & 0x1fffff));
    assert_eq!(inst, Instruction::JAL(JTypeParams { rd: 1, imm: -2 }));
}

#[test]
fn it_returns_undef_for_unrecognized_words() {
    assert_eq!(Instruction::decode(0), Instruction::UNDEF);
    assert_eq!(Instruction::decode(0xffff_ffff), Instruction::UNDEF);
    // A valid opcode with an unknown funct7.
    assert_eq!(Instruction::decode(r_word(0b0110011, 0, 0x7f, 1, 2, 3)), Instruction::UNDEF);
}

#[test]
fn it_finds_unsigned_32_correctly() {
    let num: u64 = 0x82a7_28e5_c984_d1f4;
    assert_eq!(unsigned_32(num), 0xc984_d1f4);
}

#[test]
fn it_sign_extends_fields_arithmetically() {
    assert_eq!(sign_extend_32(0x800, 12), -2048);
    assert_eq!(sign_extend_32(0x7ff, 12), 2047);
    assert_eq!(sign_extend_32(0xfff, 12), -1);
    assert_eq!(sign_extend_32(0xdead_0800, 12), -2048);
    assert_eq!(sign_extend_32(0xffff_ffff, 32), -1);
    assert_eq!(sign_extend_64(0xffff, 16), -1);
    assert_eq!(sign_extend_64(0x8000, 16), -32768);
    assert_eq!(sign_extend_64(0x7fff, 16), 32767);
    assert_eq!(sign_extend_64(0xffff_ffff_ffff_ffff, 64), -1);
}
