//! Exercises the two emulators: value reconstruction, extension policy,
//! byte isolation, failure modes, and the documented concrete scenario.

use unaligned_trap::machine_trap::{
    machine_mode_handle_unaligned_load, machine_mode_handle_unaligned_store, EmulationFault,
};
use unaligned_trap::memory::AlignedMemory;
use unaligned_trap::trap_frame::MachineTrapFrame;

fn encode_load(rd: u32, rs1: u32, funct3: u32, imm12: u32) -> u32 {
    0b0000011 | (rd << 7) | (funct3 << 12) | (rs1 << 15) | ((imm12 & 0xfff) << 20)
}

fn encode_store(rs1: u32, rs2: u32, funct3: u32, imm12: u32) -> u32 {
    0b0100011
        | ((imm12 & 0x1f) << 7)
        | (funct3 << 12)
        | (rs1 << 15)
        | (rs2 << 20)
        | (((imm12 >> 5) & 0x7f) << 25)
}

/// The documented scenario: base register 0x10, immediate 1, signed
/// halfword.  Memory holds 0xAABBCCDD at 0x10 and 0x11223344 at 0x14.
/// Effective address 0x11, offset 1, single-word path, result 0xBBCC
/// sign-extended to 0xFFFFBBCC.
#[test]
fn halfword_signed_at_offset_one() {
    let mut mem = AlignedMemory::new();
    mem.write_word(0x10, 0xaabb_ccdd);
    mem.write_word(0x14, 0x1122_3344);

    let mut frame = MachineTrapFrame::new();
    frame.registers[1] = 0x0000_0010;

    let instr = encode_load(5, 1, 1, 1);
    let r = machine_mode_handle_unaligned_load(&mut frame, &mem, instr, 0x80000000);
    assert_eq!(r, Ok(0x80000004));
    assert_eq!(frame.registers[5], 0xffff_bbcc);
}

#[test]
fn word_load_straddles_at_every_offset() {
    // Bytes 0x10..0x18 are DD CC BB AA 44 33 22 11 (little-endian words).
    let mut mem = AlignedMemory::new();
    mem.write_word(0x10, 0xaabb_ccdd);
    mem.write_word(0x14, 0x1122_3344);

    let expected: [(u32, u32); 4] = [
        (0x10, 0xaabb_ccdd),
        (0x11, 0x44aa_bbcc),
        (0x12, 0x3344_aabb),
        (0x13, 0x2233_44aa),
    ];
    for (addr, value) in expected {
        let mut frame = MachineTrapFrame::new();
        frame.registers[2] = addr;
        let instr = encode_load(6, 2, 2, 0);
        let r = machine_mode_handle_unaligned_load(&mut frame, &mem, instr, 0x100);
        assert_eq!(r, Ok(0x104));
        assert_eq!(frame.registers[6], value, "word load at {addr:#x}");
    }
}

#[test]
fn halfword_load_straddles_at_offset_three() {
    let mut mem = AlignedMemory::new();
    mem.write_word(0x10, 0xaabb_ccdd);
    mem.write_word(0x14, 0x1122_3344);

    let mut frame = MachineTrapFrame::new();
    frame.registers[1] = 0x13;
    // Unsigned halfword: bytes 0xAA then 0x44 -> 0x44AA.
    let r = machine_mode_handle_unaligned_load(&mut frame, &mem, encode_load(3, 1, 5, 0), 0);
    assert_eq!(r, Ok(4));
    assert_eq!(frame.registers[3], 0x44aa);
}

#[test]
fn byte_load_extension_policy() {
    let mut mem = AlignedMemory::new();
    mem.write_word(0x20, 0x0000_ff00);  // byte 0xFF at address 0x21

    // Signed byte load: every bit above bit 7 set.
    let mut frame = MachineTrapFrame::new();
    frame.registers[1] = 0x21;
    let r = machine_mode_handle_unaligned_load(&mut frame, &mem, encode_load(4, 1, 0, 0), 0);
    assert_eq!(r, Ok(4));
    assert_eq!(frame.registers[4], 0xffff_ffff);

    // Unsigned byte load: every bit above bit 7 clear.
    let mut frame = MachineTrapFrame::new();
    frame.registers[1] = 0x21;
    let r = machine_mode_handle_unaligned_load(&mut frame, &mem, encode_load(4, 1, 4, 0), 0);
    assert_eq!(r, Ok(4));
    assert_eq!(frame.registers[4], 0x0000_00ff);
}

#[test]
fn halfword_load_extension_policy() {
    let mut mem = AlignedMemory::new();
    mem.write_word(0x40, 0x00ff_ff00);  // halfword 0xFFFF at address 0x41

    let mut frame = MachineTrapFrame::new();
    frame.registers[1] = 0x41;
    let r = machine_mode_handle_unaligned_load(&mut frame, &mem, encode_load(7, 1, 1, 0), 0);
    assert_eq!(r, Ok(4));
    assert_eq!(frame.registers[7], 0xffff_ffff);

    let mut frame = MachineTrapFrame::new();
    frame.registers[1] = 0x41;
    let r = machine_mode_handle_unaligned_load(&mut frame, &mem, encode_load(7, 1, 5, 0), 0);
    assert_eq!(r, Ok(4));
    assert_eq!(frame.registers[7], 0x0000_ffff);
}

#[test]
fn negative_immediate_moves_address_down() {
    let mut mem = AlignedMemory::new();
    mem.write_word(0x10, 0xaabb_ccdd);

    let mut frame = MachineTrapFrame::new();
    frame.registers[1] = 0x14;
    // imm = -3: effective address 0x11; unsigned halfword 0xBBCC.
    let r = machine_mode_handle_unaligned_load(&mut frame, &mem, encode_load(2, 1, 5, 0xffd), 0);
    assert_eq!(r, Ok(4));
    assert_eq!(frame.registers[2], 0xbbcc);
}

#[test]
fn effective_address_wraps_around() {
    let mut mem = AlignedMemory::new();
    mem.write_word(0x0, 0x0000_5a00);  // byte 0x5A at address 0x1

    let mut frame = MachineTrapFrame::new();
    frame.registers[1] = 0xffff_ffff;
    // base + 2 wraps to address 0x1.
    let r = machine_mode_handle_unaligned_load(&mut frame, &mem, encode_load(2, 1, 4, 2), 0);
    assert_eq!(r, Ok(4));
    assert_eq!(frame.registers[2], 0x5a);
}

#[test]
fn load_to_register_zero_is_discarded() {
    let mut mem = AlignedMemory::new();
    mem.write_word(0x10, 0xaabb_ccdd);

    let mut frame = MachineTrapFrame::new();
    frame.registers[1] = 0x11;
    let r = machine_mode_handle_unaligned_load(&mut frame, &mem, encode_load(0, 1, 5, 0), 0x40);
    assert_eq!(r, Ok(0x44));
    assert_eq!(frame.registers[0], 0);
}

#[test]
fn load_with_invalid_function_select_mutates_nothing() {
    let mut mem = AlignedMemory::new();
    mem.write_word(0x10, 0xaabb_ccdd);

    for funct3 in [3u32, 6, 7] {
        let mut frame = MachineTrapFrame::new();
        frame.registers[1] = 0x11;
        let before = frame.registers;
        let r = machine_mode_handle_unaligned_load(
            &mut frame,
            &mem,
            encode_load(5, 1, funct3, 0),
            0,
        );
        assert_eq!(r, Err(EmulationFault::InvalidInstruction));
        assert_eq!(frame.registers, before);
    }
}

#[test]
fn load_straddling_end_of_address_space_overflows() {
    let mem = AlignedMemory::new();
    let mut frame = MachineTrapFrame::new();
    frame.registers[1] = 0xffff_fffe;
    let r = machine_mode_handle_unaligned_load(&mut frame, &mem, encode_load(5, 1, 2, 0), 0);
    assert_eq!(r, Err(EmulationFault::AddressOverflow));
    assert_eq!(frame.registers[5], 0);
}

#[test]
fn store_then_load_round_trips_at_every_offset_and_width() {
    // funct3 pairs: store width selector and the matching unsigned load.
    let cases: [(u32, u32, u32); 3] = [
        (0, 4, 0xff),          // byte
        (1, 5, 0xffff),        // halfword
        (2, 2, 0xffff_ffff),   // word
    ];
    let value = 0x8765_4321u32;
    for offset in 0u32..4 {
        for (store_f3, load_f3, mask) in cases {
            let mut mem = AlignedMemory::new();
            mem.write_word(0x30, 0x5555_5555);
            mem.write_word(0x34, 0x9999_9999);

            let mut frame = MachineTrapFrame::new();
            frame.registers[1] = 0x32 + offset;  // offsets 2..5 exercise both paths
            frame.registers[2] = value;

            let st = machine_mode_handle_unaligned_store(
                &mut frame,
                &mut mem,
                encode_store(1, 2, store_f3, 0),
                0,
            );
            assert_eq!(st, Ok(4));

            let ld = machine_mode_handle_unaligned_load(
                &mut frame,
                &mem,
                encode_load(3, 1, load_f3, 0),
                0,
            );
            assert_eq!(ld, Ok(4));
            assert_eq!(
                frame.registers[3],
                value & mask,
                "round trip offset {offset} store funct3 {store_f3}"
            );
        }
    }
}

#[test]
fn store_word_across_boundary_has_exact_word_images() {
    let mut mem = AlignedMemory::new();
    let mut frame = MachineTrapFrame::new();
    frame.registers[1] = 0x12;
    frame.registers[2] = 0xddcc_bbaa;

    let r = machine_mode_handle_unaligned_store(&mut frame, &mut mem, encode_store(1, 2, 2, 0), 0);
    assert_eq!(r, Ok(4));
    // Bytes 0x12:AA 0x13:BB 0x14:CC 0x15:DD.
    assert_eq!(mem.read_word(0x10), 0xbbaa_0000);
    assert_eq!(mem.read_word(0x14), 0x0000_ddcc);
}

#[test]
fn store_preserves_bytes_outside_the_span() {
    let mut mem = AlignedMemory::new();
    mem.write_word(0x10, 0x1032_5476);
    mem.write_word(0x14, 0x98ba_dcfe);
    mem.write_word(0x18, 0x1357_9bdf);

    let mut frame = MachineTrapFrame::new();
    frame.registers[1] = 0x13;
    frame.registers[2] = 0xaabb;

    // Halfword store at 0x13 touches bytes 0x13 and 0x14 only.
    let r = machine_mode_handle_unaligned_store(&mut frame, &mut mem, encode_store(1, 2, 1, 0), 0);
    assert_eq!(r, Ok(4));
    assert_eq!(mem.read_word(0x10), 0xbb32_5476);
    assert_eq!(mem.read_word(0x14), 0x98ba_dcaa);
    assert_eq!(mem.read_word(0x18), 0x1357_9bdf);
}

#[test]
fn store_with_invalid_function_select_mutates_nothing() {
    for funct3 in [3u32, 4, 5, 6, 7] {
        let mut mem = AlignedMemory::new();
        mem.write_word(0x10, 0x1111_2222);
        mem.write_word(0x14, 0x3333_4444);

        let mut frame = MachineTrapFrame::new();
        frame.registers[1] = 0x13;
        frame.registers[2] = 0xdead_beef;
        let before = frame.registers;

        let r = machine_mode_handle_unaligned_store(
            &mut frame,
            &mut mem,
            encode_store(1, 2, funct3, 0),
            0,
        );
        assert_eq!(r, Err(EmulationFault::InvalidInstruction));
        assert_eq!(frame.registers, before);
        assert_eq!(mem.read_word(0x10), 0x1111_2222);
        assert_eq!(mem.read_word(0x14), 0x3333_4444);
    }
}

#[test]
fn store_straddling_end_of_address_space_overflows() {
    let mut mem = AlignedMemory::new();
    mem.write_word(0xffff_fffc, 0x0102_0304);

    let mut frame = MachineTrapFrame::new();
    frame.registers[1] = 0xffff_ffff;
    frame.registers[2] = 0x5566_7788;

    let r = machine_mode_handle_unaligned_store(&mut frame, &mut mem, encode_store(1, 2, 1, 0), 0);
    assert_eq!(r, Err(EmulationFault::AddressOverflow));
    assert_eq!(mem.read_word(0xffff_fffc), 0x0102_0304);
    assert_eq!(mem.read_word(0x0), 0);
}

#[test]
fn successful_emulation_advances_pc_by_four() {
    let mut mem = AlignedMemory::new();
    let mut frame = MachineTrapFrame::new();
    frame.registers[1] = 0x11;

    for epc in [0u32, 0x80001234, 0xffff_fff8] {
        let r = machine_mode_handle_unaligned_load(&mut frame, &mem, encode_load(2, 1, 4, 0), epc);
        assert_eq!(r, Ok(epc.wrapping_add(4)));
        let r =
            machine_mode_handle_unaligned_store(&mut frame, &mut mem, encode_store(1, 2, 0, 0), epc);
        assert_eq!(r, Ok(epc.wrapping_add(4)));
    }
}
