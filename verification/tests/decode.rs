//! Exercises the instruction-field decoders on hand-assembled words.

use unaligned_trap::helper_reg_utils::{get_opcode, get_rd, ITypeOpcode, STypeOpcode};

/// Assembles a load-style instruction word.
fn encode_load(rd: u32, rs1: u32, funct3: u32, imm12: u32) -> u32 {
    0b0000011 | (rd << 7) | (funct3 << 12) | (rs1 << 15) | ((imm12 & 0xfff) << 20)
}

/// Assembles a store-style instruction word, splitting the immediate over
/// its two fields.
fn encode_store(rs1: u32, rs2: u32, funct3: u32, imm12: u32) -> u32 {
    0b0100011
        | ((imm12 & 0x1f) << 7)
        | (funct3 << 12)
        | (rs1 << 15)
        | (rs2 << 20)
        | (((imm12 >> 5) & 0x7f) << 25)
}

#[test]
fn opcode_is_low_seven_bits() {
    assert_eq!(get_opcode(encode_load(1, 2, 0, 0)), 0b0000011);
    assert_eq!(get_opcode(encode_store(1, 2, 0, 0)), 0b0100011);
    assert_eq!(get_opcode(0xffff_ffff), 0x7f);
}

#[test]
fn rd_is_bits_seven_to_eleven() {
    assert_eq!(get_rd(encode_load(31, 0, 0, 0)), 31);
    assert_eq!(get_rd(encode_load(5, 7, 2, 0x123)), 5);
}

#[test]
fn i_type_fields_decode() {
    let instr = encode_load(5, 17, 1, 0x7ff);
    assert_eq!(ITypeOpcode::rs1(instr), 17);
    assert_eq!(ITypeOpcode::funct3(instr), 1);
    assert_eq!(ITypeOpcode::imm(instr), 0x7ff);
}

#[test]
fn i_type_imm_is_raw_twelve_bits() {
    // The decoder reports the raw field; sign-extension is the caller's.
    let instr = encode_load(1, 2, 0, 0xfff);
    assert_eq!(ITypeOpcode::imm(instr), 0xfff);
}

#[test]
fn s_type_fields_decode() {
    let instr = encode_store(9, 23, 2, 0x2a);
    assert_eq!(STypeOpcode::rs1(instr), 9);
    assert_eq!(STypeOpcode::rs2(instr), 23);
    assert_eq!(STypeOpcode::funct3(instr), 2);
    assert_eq!(STypeOpcode::imm(instr), 0x2a);
}

#[test]
fn s_type_imm_reassembles_split_fields() {
    // An immediate with bits in both halves: low 5 bits 0b10101,
    // high 7 bits 0b1010101.
    let imm = (0b1010101 << 5) | 0b10101;
    let instr = encode_store(1, 2, 1, imm);
    assert_eq!(STypeOpcode::imm(instr), imm);
}
