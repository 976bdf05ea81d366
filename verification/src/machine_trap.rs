//! Emulation of misaligned loads and stores, and the exception dispatch
//! that feeds it.
//!
//! A misaligned access of width 1, 2 or 4 at effective address `ea` touches
//! the bytes `[ea, ea + width)`.  Those bytes lie inside the little-endian
//! concatenation of two adjacent aligned words, the one holding `ea` and
//! its successor.  The whole engine is specified over that 64-bit
//! concatenation: a load selects a byte span out of it, a store replaces a
//! byte span inside it and nothing else.

use vstd::prelude::*;

verus! {

use crate::helper_reg_utils::{
    get_opcode,
    get_rd,
    spec_i_imm,
    spec_s_imm,
    ITypeOpcode,
    STypeOpcode,
};
use crate::memory::AlignedMemory;
use crate::trap_frame::MachineTrapFrame;
use crate::utils::{
    sign_extend,
    sign_extend_16,
    sign_extend_8,
    spec_field,
    spec_sign_extend_16,
    spec_sign_extend_8,
    zero_extend_16,
    zero_extend_8,
};

/// A condition on which an emulator refuses to act.  Both are terminal for
/// the trapped context: the dispatcher turns them into a halt.
#[derive(Clone, Copy, Debug, PartialEq, Eq, Structural)]
pub enum EmulationFault {
    /// The function-select field names no supported access width.
    InvalidInstruction,
    /// The access straddles the last aligned word of the address space, so
    /// the second word's address does not exist.
    AddressOverflow,
}

/// Why the exception dispatcher halted instead of resuming.
#[derive(Clone, Copy, Debug, PartialEq, Eq, Structural)]
pub enum TrapError {
    /// The trap cause is not one of the three misaligned-access exceptions.
    UnsupportedCause,
    /// The trapped context ran below machine mode with address translation
    /// active; emulating would require walking page tables.
    TranslationRequired,
    /// The opcode or function-select names no emulable load or store.
    InvalidInstruction,
    /// The access straddles the end of the address space.
    AddressOverflow,
}

/// The privilege level the trapped context was running in, as read from
/// the external register layer.
#[derive(Clone, Copy, Debug, PartialEq, Eq, Structural)]
pub enum PrivilegeLevel {
    Machine,
    Supervisor,
    User,
}

/// The address-translation mode active at trap time.
#[derive(Clone, Copy, Debug, PartialEq, Eq, Structural)]
pub enum AddressTranslation {
    /// Physical addressing: no translation in effect.
    Bare,
    /// Page-table translation is active.
    Sv32,
}

/// The read-only privilege state supplied by the external register layer.
#[derive(Clone, Copy, Debug, PartialEq, Eq, Structural)]
pub struct PrivilegeSnapshot {
    pub previous: PrivilegeLevel,
    pub translation: AddressTranslation,
}

/// The opcode of the register-load instruction family.
pub const LOAD_OPCODE: u32 = 0b0000011;

/// The opcode of the register-store instruction family.
pub const STORE_OPCODE: u32 = 0b0100011;

/// Whether a trap cause code names one of the three misaligned-access
/// exceptions: instruction address misaligned, load address misaligned,
/// store address misaligned.
pub open spec fn spec_misaligned_cause(code: u32) -> bool {
    code == 0 || code == 4 || code == 6
}

/// Whether emulating on behalf of the trapped context would require
/// address translation: it ran below machine mode while paging was active.
pub open spec fn spec_needs_translation(snapshot: PrivilegeSnapshot) -> bool {
    !(snapshot.previous == PrivilegeLevel::Machine || snapshot.translation
        == AddressTranslation::Bare)
}

/// 32-bit wrapping addition.
pub open spec fn spec_wrap_add(a: u32, b: u32) -> u32 {
    if a + b > u32::MAX {
        (a + b - 0x1_0000_0000) as u32
    } else {
        (a + b) as u32
    }
}

/// The little-endian concatenation of two adjacent aligned words: `low`
/// occupies bits 0..31, `high` bits 32..63.
pub open spec fn word_pair(low: u32, high: u32) -> u64 {
    (low as u64) | ((high as u64) << 32u64)
}

/// A right-aligned mask covering `width` bytes.
pub open spec fn span_mask(width: u32) -> u64
    recommends
        width == 1 || width == 2 || width == 4,
{
    (((1u64 << ((8 * width) as u64)) - 1) as u64)
}

/// The `width` bytes starting `offset` bytes into the word pair,
/// right-aligned, with every higher bit zero.
pub open spec fn spec_span_value(low: u32, high: u32, offset: u32, width: u32) -> u32 {
    (((word_pair(low, high) >> ((8 * offset) as u64)) & span_mask(width)) as u32)
}

/// The word pair after the `width` bytes starting `offset` bytes in are
/// replaced by the low `width` bytes of `value`; every byte outside that
/// span keeps its value.
pub open spec fn spec_span_store(low: u32, high: u32, offset: u32, width: u32, value: u32) -> u64 {
    (word_pair(low, high) & !(span_mask(width) << ((8 * offset) as u64))) | (((value as u64)
        & span_mask(width)) << ((8 * offset) as u64))
}

/// Byte `i` of a word pair.
pub open spec fn spec_pair_byte(pair: u64, i: u32) -> u32
    recommends
        i < 8,
{
    (((pair >> ((8 * i) as u64)) & 0xff) as u32)
}

/// The access width a load-style function-select value stands for, if any.
pub open spec fn spec_load_width(funct3: u32) -> Option<u32> {
    if funct3 == 0 || funct3 == 4 {
        Some(1u32)
    } else if funct3 == 1 || funct3 == 5 {
        Some(2u32)
    } else if funct3 == 2 {
        Some(4u32)
    } else {
        None
    }
}

/// The access width a store-style function-select value stands for, if any.
pub open spec fn spec_store_width(funct3: u32) -> Option<u32> {
    if funct3 == 0 {
        Some(1u32)
    } else if funct3 == 1 {
        Some(2u32)
    } else if funct3 == 2 {
        Some(4u32)
    } else {
        None
    }
}

/// The extension policy a load-style function-select value implies, applied
/// to a right-aligned raw span.
pub open spec fn spec_extend(value: u32, funct3: u32) -> u32
    recommends
        spec_load_width(funct3) is Some,
{
    if funct3 == 0 {
        spec_sign_extend_8(value)
    } else if funct3 == 4 {
        value & 0xff
    } else if funct3 == 1 {
        spec_sign_extend_16(value)
    } else if funct3 == 5 {
        value & 0xffff
    } else {
        value
    }
}

/// The aligned word address enclosing `ea`.
pub open spec fn spec_aligned(ea: u32) -> u32 {
    ea & !3u32
}

/// How many bytes into its aligned word `ea` points.
pub open spec fn spec_offset(ea: u32) -> u32 {
    ea & 3u32
}

/// Whether an access of `width` bytes at `ea` crosses into the next
/// aligned word.
pub open spec fn spec_straddles(ea: u32, width: u32) -> bool {
    spec_offset(ea) + width > 4
}

/// Whether the next aligned word after the one enclosing `ea` lies beyond
/// the end of the address space.
pub open spec fn spec_wraps(ea: u32, width: u32) -> bool {
    spec_straddles(ea, width) && spec_aligned(ea) == 0xffff_fffcu32
}

/// The effective address of a load-style instruction: base register plus
/// sign-extended immediate, with address-space wraparound defined.
pub open spec fn spec_load_ea(frame: MachineTrapFrame, instr: u32) -> u32 {
    spec_wrap_add(frame.registers@[spec_field(instr, 15, 5) as int], spec_i_imm(instr))
}

/// The effective address of a store-style instruction.
pub open spec fn spec_store_ea(frame: MachineTrapFrame, instr: u32) -> u32 {
    spec_wrap_add(frame.registers@[spec_field(instr, 15, 5) as int], spec_s_imm(instr))
}

/// The value a load of width `width` with extension policy `funct3`
/// delivers from `mem` at `ea`.
pub open spec fn spec_load_value(mem: AlignedMemory, ea: u32, funct3: u32) -> u32
    recommends
        spec_load_width(funct3) is Some,
{
    spec_extend(
        spec_span_value(
            mem.spec_word(spec_aligned(ea)),
            mem.spec_word(spec_wrap_add(spec_aligned(ea), 4)),
            spec_offset(ea),
            spec_load_width(funct3)->Some_0,
        ),
        funct3,
    )
}

/// The register file after a successful load: the destination register
/// receives the loaded value, except destination 0, whose write is
/// discarded; every other register keeps its value.
pub open spec fn spec_load_regs(frame: MachineTrapFrame, mem: AlignedMemory, instr: u32) -> Seq<
    u32,
> {
    let rd = spec_field(instr, 7, 5);
    if rd == 0 {
        frame.registers@
    } else {
        frame.registers@.update(
            rd as int,
            spec_load_value(mem, spec_load_ea(frame, instr), spec_field(instr, 12, 3)),
        )
    }
}

/// The value a store-style instruction writes: the contents of its source
/// register.
pub open spec fn spec_store_value(frame: MachineTrapFrame, instr: u32) -> u32 {
    frame.registers@[spec_field(instr, 20, 5) as int]
}

/// How a successful store of `value` with the given span relates the
/// memory image after (`mem1`) to the one before (`mem0`): the pair of
/// aligned words around `ea` carries the replaced span, every other word
/// keeps its value.
pub open spec fn spec_store_ok_mem(
    mem0: AlignedMemory,
    mem1: AlignedMemory,
    ea: u32,
    width: u32,
    value: u32,
) -> bool {
    let a0 = spec_aligned(ea);
    let a1 = spec_wrap_add(a0, 4);
    word_pair(mem1.spec_word(a0), mem1.spec_word(a1)) == spec_span_store(
        mem0.spec_word(a0),
        mem0.spec_word(a1),
        spec_offset(ea),
        width,
        value,
    ) && (forall|a: u32| a != a0 && a != a1 ==> mem1.spec_word(a) == mem0.spec_word(a))
}

/// How an address splits into an aligned word address and a byte offset.
proof fn lemma_address_split(pa: u32)
    by (bit_vector)
    ensures
        ((pa & !3u32) & 3u32) == 0,
        (pa & 3u32) < 4,
        (pa & !3u32) + (pa & 3u32) == pa,
        (pa & !3u32) <= 0xffff_fffcu32,
        (pa & !3u32) != 0xffff_fffcu32 ==> (pa & !3u32) + 4 <= 0xffff_ffffu32,
        (pa & !3u32) != 0xffff_fffcu32 ==> (((pa & !3u32) + 4) as u32 & 3u32) == 0,
{
}

/// The byte-span masks written out.
proof fn lemma_span_mask_values()
    by (bit_vector)
    ensures
        span_mask(1) == 0xffu64,
        span_mask(2) == 0xffffu64,
        span_mask(4) == 0xffff_ffffu64,
        (span_mask(1) as u32) == 0xffu32,
        (span_mask(2) as u32) == 0xffffu32,
        (span_mask(4) as u32) == 0xffff_ffffu32,
{
}

/// When the requested bytes lie inside one aligned word, shifting that
/// word right by the byte offset agrees with selecting the span out of the
/// pair, up to the bits the extension step keeps.
proof fn lemma_load_single(low: u32, high: u32, offset: u32, width: u32)
    by (bit_vector)
    requires
        offset < 4,
        width == 1 || width == 2 || width == 4,
        offset + width <= 4,
    ensures
        width == 1 ==> ((low >> ((8 * offset) as u32)) & 0xff) == (spec_span_value(
            low,
            high,
            offset,
            width,
        ) & 0xff),
        width == 2 ==> ((low >> ((8 * offset) as u32)) & 0xffff) == (spec_span_value(
            low,
            high,
            offset,
            width,
        ) & 0xffff),
        width == 4 ==> (low >> ((8 * offset) as u32)) == spec_span_value(low, high, offset, width),
{
}

/// When the requested bytes straddle two aligned words, the shift-and-or
/// merge agrees with selecting the span out of the pair, up to the bits
/// the extension step keeps.
proof fn lemma_load_straddle(low: u32, high: u32, offset: u32, width: u32)
    by (bit_vector)
    requires
        offset < 4,
        width == 2 || width == 4,
        offset + width > 4,
    ensures
        width == 2 ==> (((low >> ((8 * offset) as u32)) | (high << ((32 - 8 * offset) as u32)))
            & 0xffff) == (spec_span_value(low, high, offset, width) & 0xffff),
        width == 4 ==> ((low >> ((8 * offset) as u32)) | (high << ((32 - 8 * offset) as u32)))
            == spec_span_value(low, high, offset, width),
{
}

/// When the target bytes lie inside one aligned word, the masked
/// read-modify-write of that word replaces exactly the span inside the
/// pair.
proof fn lemma_store_single(low: u32, high: u32, offset: u32, width: u32, value: u32)
    by (bit_vector)
    requires
        offset < 4,
        width == 1 || width == 2 || width == 4,
        offset + width <= 4,
    ensures
        ({
            let m32 = (span_mask(width) as u32);
            let sh = ((8 * offset) as u32);
            word_pair((low & !(m32 << sh)) | ((value & m32) << sh), high) == spec_span_store(
                low,
                high,
                offset,
                width,
                value,
            )
        }),
{
}

/// When the target bytes straddle two aligned words, the two masked
/// read-modify-writes replace exactly the span inside the pair: the low
/// word keeps its low `8 * offset` bits, the high word keeps everything
/// above the spilled bytes.
proof fn lemma_store_straddle(low: u32, high: u32, offset: u32, width: u32, value: u32)
    by (bit_vector)
    requires
        offset < 4,
        width == 2 || width == 4,
        offset + width > 4,
    ensures
        ({
            let m32 = (span_mask(width) as u32);
            let sh = ((8 * offset) as u32);
            let back = ((32 - 8 * offset) as u32);
            let mv = value & m32;
            word_pair((low & !(m32 << sh)) | (mv << sh), (high & !(m32 >> back)) | (mv >> back))
                == spec_span_store(low, high, offset, width, value)
        }),
{
}

/// A freshly stored span reads back as exactly the stored bytes.
proof fn lemma_span_round_trip(
    low: u32,
    high: u32,
    new_low: u32,
    new_high: u32,
    offset: u32,
    width: u32,
    value: u32,
)
    by (bit_vector)
    requires
        offset < 4,
        width == 1 || width == 2 || width == 4,
        word_pair(new_low, new_high) == spec_span_store(low, high, offset, width, value),
    ensures
        width == 1 ==> spec_span_value(new_low, new_high, offset, width) == (value & 0xff),
        width == 2 ==> spec_span_value(new_low, new_high, offset, width) == (value & 0xffff),
        width == 4 ==> spec_span_value(new_low, new_high, offset, width) == value,
        width == 1 ==> (spec_span_value(new_low, new_high, offset, width) & 0xff) == (value
            & 0xff),
        width == 2 ==> (spec_span_value(new_low, new_high, offset, width) & 0xffff) == (value
            & 0xffff),
{
}

/// Storing then loading round-trips: after a store of `value` of width
/// `width` at effective address `ea`, a load of the matching width from
/// the same address delivers exactly the stored bytes, extended by the
/// load's own policy — whatever the alignment offset of `ea`.
pub proof fn lemma_store_load_round_trip(
    mem0: AlignedMemory,
    mem1: AlignedMemory,
    ea: u32,
    load_funct3: u32,
    width: u32,
    value: u32,
)
    requires
        spec_load_width(load_funct3) == Some(width),
        spec_store_ok_mem(mem0, mem1, ea, width, value),
    ensures
        spec_load_value(mem1, ea, load_funct3) == spec_extend(value, load_funct3),
{
    lemma_address_split(ea);
    let a0 = spec_aligned(ea);
    let a1 = spec_wrap_add(a0, 4);
    lemma_span_round_trip(
        mem0.spec_word(a0),
        mem0.spec_word(a1),
        mem1.spec_word(a0),
        mem1.spec_word(a1),
        spec_offset(ea),
        width,
        value,
    );
}

/// Byte `i` of the low half of a pair, read out of the pair.
proof fn lemma_pair_byte_low(low: u32, high: u32, j: u32)
    by (bit_vector)
    requires
        j < 4,
    ensures
        spec_pair_byte(word_pair(low, high), j) == ((low >> ((8 * j) as u32)) & 0xff),
{
}

/// Byte `4 + j` of a pair, read out of its high half.
proof fn lemma_pair_byte_high(low: u32, high: u32, j: u32)
    by (bit_vector)
    requires
        j < 4,
    ensures
        spec_pair_byte(word_pair(low, high), (j + 4) as u32) == ((high >> ((8 * j) as u32))
            & 0xff),
{
}

/// A stored span leaves every pair byte outside `[offset, offset + width)`
/// with its old value.
proof fn lemma_span_store_byte(
    low: u32,
    high: u32,
    offset: u32,
    width: u32,
    value: u32,
    i: u32,
)
    by (bit_vector)
    requires
        i < 8,
        offset < 4,
        width == 1 || width == 2 || width == 4,
        i < offset || i >= offset + width,
    ensures
        spec_pair_byte(spec_span_store(low, high, offset, width, value), i) == spec_pair_byte(
            word_pair(low, high),
            i,
        ),
{
}

/// After a successful store of `width` bytes at effective address `ea`,
/// the byte at any address outside `[ea, ea + width)` keeps its pre-store
/// value, whatever the surrounding memory content was.
pub proof fn lemma_store_byte_isolation(
    mem0: AlignedMemory,
    mem1: AlignedMemory,
    ea: u32,
    width: u32,
    value: u32,
    addr: u32,
)
    requires
        width == 1 || width == 2 || width == 4,
        !spec_wraps(ea, width),
        spec_store_ok_mem(mem0, mem1, ea, width, value),
        !(ea <= addr && addr < ea + width),
    ensures
        mem1.spec_byte(addr) == mem0.spec_byte(addr),
{
    lemma_address_split(ea);
    lemma_address_split(addr);
    let a0 = spec_aligned(ea);
    let a1 = spec_wrap_add(a0, 4);
    let off = spec_offset(ea);
    let aw = spec_aligned(addr);
    let j = spec_offset(addr);
    if aw == a0 || aw == a1 {
        let i: u32 = if aw == a0 {
            j
        } else {
            (j + 4) as u32
        };
        if aw == a0 {
            lemma_pair_byte_low(mem0.spec_word(a0), mem0.spec_word(a1), j);
            lemma_pair_byte_low(mem1.spec_word(a0), mem1.spec_word(a1), j);
        } else {
            lemma_pair_byte_high(mem0.spec_word(a0), mem0.spec_word(a1), j);
            lemma_pair_byte_high(mem1.spec_word(a0), mem1.spec_word(a1), j);
        }
        // The pair byte index `i` lies outside the stored span.
        if off + width <= 4 {
            // Span confined to the low word; bytes of the high word are
            // untouched by construction.
            if aw == a0 {
                assert(addr == a0 + j);
                assert(ea == a0 + off);
            }
        } else {
            // Straddling span: the second word really is `a0 + 4`.
            assert(a0 != 0xffff_fffcu32);
            assert(a1 == a0 + 4);
            if aw == a0 {
                assert(addr == a0 + j);
            } else {
                assert(addr == a0 + 4 + j);
            }
            assert(ea == a0 + off);
        }
        lemma_span_store_byte(mem0.spec_word(a0), mem0.spec_word(a1), off, width, value, i);
    } else {
        // The enclosing word is untouched.
        assert(mem1.spec_word(aw) == mem0.spec_word(aw));
    }
}

/// The raw span a load reconstructs is the little-endian concatenation of
/// the `width` bytes starting `offset` bytes into the word pair, however
/// the span falls across the two words; every higher byte of the result
/// is zero.
pub proof fn lemma_span_value_bytes(low: u32, high: u32, offset: u32, width: u32, i: u32)
    by (bit_vector)
    requires
        offset < 4,
        width == 1 || width == 2 || width == 4,
        i < 8,
    ensures
        i < width ==> spec_pair_byte(spec_span_value(low, high, offset, width) as u64, i)
            == spec_pair_byte(word_pair(low, high), (offset + i) as u32),
        i >= width ==> spec_pair_byte(spec_span_value(low, high, offset, width) as u64, i) == 0,
{
}

/// The extension policy: a signed narrow load replicates the span's sign
/// bit through every bit above the span, an unsigned one clears them, and
/// both leave the span's own bits as loaded.
pub proof fn lemma_extension_policy(v: u32)
    by (bit_vector)
    ensures
        v & 0x80 != 0 ==> (spec_extend(v, 0) >> 8u32) == 0xff_ffffu32,
        v & 0x80 == 0 ==> (spec_extend(v, 0) >> 8u32) == 0,
        (spec_extend(v, 4) >> 8u32) == 0,
        v & 0x8000 != 0 ==> (spec_extend(v, 1) >> 16u32) == 0xffffu32,
        v & 0x8000 == 0 ==> (spec_extend(v, 1) >> 16u32) == 0,
        (spec_extend(v, 5) >> 16u32) == 0,
        (spec_extend(v, 0) & 0xff) == (v & 0xff),
        (spec_extend(v, 4) & 0xff) == (v & 0xff),
        (spec_extend(v, 1) & 0xffff) == (v & 0xffff),
        (spec_extend(v, 5) & 0xffff) == (v & 0xffff),
{
}

/// Emulates the misaligned load `instr` against the saved register file
/// and the aligned-word memory image, using aligned word reads only.
///
/// On success the destination register holds the loaded, extended value
/// (except destination 0, whose write is discarded), no other register
/// changes, and execution resumes at the instruction after the faulting
/// one.  On failure nothing changes.
#[inline(never)]
pub fn machine_mode_handle_unaligned_load(
    trap_frame: &mut MachineTrapFrame,
    mem: &AlignedMemory,
    instr: u32,
    epc: u32,
) -> (r: Result<u32, EmulationFault>)
    ensures
        ({
            let funct3 = spec_field(instr, 12, 3);
            let ea = spec_load_ea(*old(trap_frame), instr);
            let before = *old(trap_frame);
            let after = *final(trap_frame);
            match spec_load_width(funct3) {
                None => r == Err::<u32, EmulationFault>(EmulationFault::InvalidInstruction)
                    && after == before,
                Some(width) => if spec_wraps(ea, width) {
                    r == Err::<u32, EmulationFault>(EmulationFault::AddressOverflow) && after
                        == before
                } else {
                    r == Ok::<u32, EmulationFault>(spec_wrap_add(epc, 4)) && after.registers@
                        == spec_load_regs(before, *mem, instr)
                },
            }
        }),
{
    let rd = get_rd(instr);

    let mut imm = ITypeOpcode::imm(instr);
    sign_extend(&mut imm, 12);
    let rs1 = ITypeOpcode::rs1(instr);
    let rs1: u32 = trap_frame.registers[rs1 as usize];
    let physical_address = rs1.wrapping_add(imm);

    let aligned_address = physical_address & !3u32;
    let unalignment = physical_address & 3;

    let funct3 = ITypeOpcode::funct3(instr);

    let bytes_to_read: u32 = match funct3 {
        0 | 4 => 1,
        1 | 5 => 2,
        2 => 4,
        _ => {
            return Err(EmulationFault::InvalidInstruction);
        },
    };

    proof {
        lemma_address_split(physical_address);
    }

    let ghost high_word = mem.spec_word(spec_wrap_add(aligned_address, 4));

    let value: u32 = if unalignment + bytes_to_read <= 4 {
        // The requested bytes lie entirely within one aligned word.
        let value_low = mem.read_word(aligned_address);
        proof {
            lemma_load_single(value_low, high_word, unalignment, bytes_to_read);
        }
        value_low >> (unalignment * 8)
    } else {
        // The requested bytes straddle two consecutive aligned words.
        if aligned_address == 0xffff_fffc {
            return Err(EmulationFault::AddressOverflow);
        }
        let next_address = aligned_address + 4;
        let value_low = mem.read_word(aligned_address);
        let value_high = mem.read_word(next_address);
        proof {
            lemma_load_straddle(value_low, value_high, unalignment, bytes_to_read);
        }
        let shift = unalignment * 8;
        (value_low >> shift) | (value_high << (32 - shift))
    };

    let ret_val = match funct3 {
        0 => sign_extend_8(value),
        4 => zero_extend_8(value),
        1 => sign_extend_16(value),
        5 => zero_extend_16(value),
        _ => value,  // funct3 == 2: a full word needs no extension
    };

    if rd != 0 {
        trap_frame.registers[rd as usize] = ret_val;
    }

    Ok(epc.wrapping_add(4))
}

/// Emulates the misaligned store `instr` against the saved register file
/// and the aligned-word memory image, as the read-modify-write counterpart
/// of the load emulator.
///
/// On success exactly the `width` bytes starting at the effective address
/// carry the low bytes of the source register, every byte outside that
/// span and every register keep their values, and execution resumes at the
/// instruction after the faulting one.  On failure nothing changes:
/// validation precedes every write.
#[inline(never)]
pub fn machine_mode_handle_unaligned_store(
    trap_frame: &mut MachineTrapFrame,
    mem: &mut AlignedMemory,
    instr: u32,
    epc: u32,
) -> (r: Result<u32, EmulationFault>)
    ensures
        *final(trap_frame) == *old(trap_frame),
        ({
            let funct3 = spec_field(instr, 12, 3);
            let ea = spec_store_ea(*old(trap_frame), instr);
            let value = spec_store_value(*old(trap_frame), instr);
            let mem0 = *old(mem);
            let mem1 = *final(mem);
            match spec_store_width(funct3) {
                None => r == Err::<u32, EmulationFault>(EmulationFault::InvalidInstruction) && mem1
                    == mem0,
                Some(width) => if spec_wraps(ea, width) {
                    r == Err::<u32, EmulationFault>(EmulationFault::AddressOverflow) && mem1
                        == mem0
                } else {
                    r == Ok::<u32, EmulationFault>(spec_wrap_add(epc, 4)) && spec_store_ok_mem(
                        mem0,
                        mem1,
                        ea,
                        width,
                        value,
                    )
                },
            }
        }),
{
    let mut imm = STypeOpcode::imm(instr);
    sign_extend(&mut imm, 12);

    let rs1 = STypeOpcode::rs1(instr);
    let rs1: u32 = trap_frame.registers[rs1 as usize];
    let physical_address = rs1.wrapping_add(imm);

    let funct3 = STypeOpcode::funct3(instr);
    let bytes_to_write: u32 = match funct3 {
        0 => 1,
        1 => 2,
        2 => 4,
        _ => {
            return Err(EmulationFault::InvalidInstruction);
        },
    };

    let aligned_address = physical_address & !3u32;
    let unalignment = physical_address & 3;

    let rs2 = STypeOpcode::rs2(instr);
    let value_to_write: u32 = trap_frame.registers[rs2 as usize];

    proof {
        lemma_address_split(physical_address);
        lemma_span_mask_values();
    }

    let value_mask: u32 = if bytes_to_write == 1 {
        0xff
    } else if bytes_to_write == 2 {
        0xffff
    } else {
        0xffff_ffff
    };
    let masked_value = value_to_write & value_mask;
    let shift = unalignment * 8;

    if unalignment + bytes_to_write <= 4 {
        // The target bytes lie entirely within one aligned word.
        let existing = mem.read_word(aligned_address);
        let new_value = (existing & !(value_mask << shift)) | (masked_value << shift);
        proof {
            let high_word = mem.spec_word(spec_wrap_add(aligned_address, 4));
            lemma_store_single(existing, high_word, unalignment, bytes_to_write, value_to_write);
        }
        mem.write_word(aligned_address, new_value);
    } else {
        // The target bytes straddle two consecutive aligned words.
        if aligned_address == 0xffff_fffc {
            return Err(EmulationFault::AddressOverflow);
        }
        let next_address = aligned_address + 4;
        let existing_low = mem.read_word(aligned_address);
        let existing_high = mem.read_word(next_address);
        let new_low = (existing_low & !(value_mask << shift)) | (masked_value << shift);
        let new_high = (existing_high & !(value_mask >> (32 - shift))) | (masked_value >> (32
            - shift));
        proof {
            lemma_store_straddle(
                existing_low,
                existing_high,
                unalignment,
                bytes_to_write,
                value_to_write,
            );
        }
        mem.write_word(aligned_address, new_low);
        mem.write_word(next_address, new_high);
    }

    Ok(epc.wrapping_add(4))
}

/// Routes a machine-mode exception: checks that the cause is one of the
/// three misaligned-access codes, that no address translation would be
/// needed, and dispatches on the opcode of the faulting instruction to the
/// matching emulator.
///
/// On success the returned program counter is the faulting one advanced by
/// one instruction.  Every refused case reports why and leaves the
/// register file and memory untouched.
pub fn custom_machine_exception_handler(
    trap_frame: &mut MachineTrapFrame,
    mem: &mut AlignedMemory,
    snapshot: PrivilegeSnapshot,
    cause_code: u32,
    instr: u32,
    epc: u32,
) -> (r: Result<u32, TrapError>)
    ensures
        ({
            let opcode = instr & 0x7f;
            let funct3 = spec_field(instr, 12, 3);
            let before = *old(trap_frame);
            let after = *final(trap_frame);
            let mem0 = *old(mem);
            let mem1 = *final(mem);
            if !spec_misaligned_cause(cause_code) {
                r == Err::<u32, TrapError>(TrapError::UnsupportedCause) && after == before && mem1
                    == mem0
            } else if spec_needs_translation(snapshot) {
                r == Err::<u32, TrapError>(TrapError::TranslationRequired) && after == before
                    && mem1 == mem0
            } else if opcode == LOAD_OPCODE {
                mem1 == mem0 && match spec_load_width(funct3) {
                    None => r == Err::<u32, TrapError>(TrapError::InvalidInstruction) && after
                        == before,
                    Some(width) => if spec_wraps(spec_load_ea(before, instr), width) {
                        r == Err::<u32, TrapError>(TrapError::AddressOverflow) && after == before
                    } else {
                        r == Ok::<u32, TrapError>(spec_wrap_add(epc, 4)) && after.registers@
                            == spec_load_regs(before, mem0, instr)
                    },
                }
            } else if opcode == STORE_OPCODE {
                after == before && match spec_store_width(funct3) {
                    None => r == Err::<u32, TrapError>(TrapError::InvalidInstruction) && mem1
                        == mem0,
                    Some(width) => if spec_wraps(spec_store_ea(before, instr), width) {
                        r == Err::<u32, TrapError>(TrapError::AddressOverflow) && mem1 == mem0
                    } else {
                        r == Ok::<u32, TrapError>(spec_wrap_add(epc, 4)) && spec_store_ok_mem(
                            mem0,
                            mem1,
                            spec_store_ea(before, instr),
                            width,
                            spec_store_value(before, instr),
                        )
                    },
                }
            } else {
                r == Err::<u32, TrapError>(TrapError::InvalidInstruction) && after == before
                    && mem1 == mem0
            }
        }),
{
    match cause_code {
        0 | 4 | 6 => {},
        _ => {
            return Err(TrapError::UnsupportedCause);
        },
    }

    if !(snapshot.previous == PrivilegeLevel::Machine || snapshot.translation
        == AddressTranslation::Bare) {
        // Emulating would require walking page tables, which this layer
        // does not implement.
        return Err(TrapError::TranslationRequired);
    }

    let opcode = get_opcode(instr);

    if opcode == LOAD_OPCODE {
        match machine_mode_handle_unaligned_load(trap_frame, mem, instr, epc) {
            Ok(new_pc) => Ok(new_pc),
            Err(EmulationFault::InvalidInstruction) => Err(TrapError::InvalidInstruction),
            Err(EmulationFault::AddressOverflow) => Err(TrapError::AddressOverflow),
        }
    } else if opcode == STORE_OPCODE {
        match machine_mode_handle_unaligned_store(trap_frame, mem, instr, epc) {
            Ok(new_pc) => Ok(new_pc),
            Err(EmulationFault::InvalidInstruction) => Err(TrapError::InvalidInstruction),
            Err(EmulationFault::AddressOverflow) => Err(TrapError::AddressOverflow),
        }
    } else {
        Err(TrapError::InvalidInstruction)
    }
}

} // verus!

