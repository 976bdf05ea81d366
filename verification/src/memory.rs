//! The aligned-word memory capability the emulators run against.
//!
//! The memory subsystem underneath the trap layer accepts only 4-byte-wide
//! accesses at 4-byte-aligned addresses.  `AlignedMemory` models exactly
//! that capability: a total mapping from aligned 32-bit addresses to 32-bit
//! words, every word initially zero, readable and writable only at aligned
//! addresses.  The emulation arithmetic itself thereby stays free of
//! unchecked pointer arithmetic.

use vstd::prelude::*;

verus! {

use vstd::hash_map::HashMapWithView;

broadcast use vstd::std_specs::hash::axiom_u32_obeys_hash_table_key_model;


/// A sparse image of word-addressable memory: words that were never
/// written read as zero.
pub struct AlignedMemory {
    words: HashMapWithView<u32, u32>,
}

impl AlignedMemory {
    /// The word stored at aligned address `addr`.
    pub closed spec fn spec_word(self, addr: u32) -> u32 {
        if self.words@.contains_key(addr) {
            self.words@[addr]
        } else {
            0
        }
    }

    /// The byte stored at (arbitrarily aligned) address `addr`: the byte of
    /// its enclosing aligned word selected by the low two address bits.
    pub open spec fn spec_byte(self, addr: u32) -> u32 {
        (self.spec_word(addr & !3u32) >> (((addr & 3u32) * 8) as u32)) & 0xff
    }

    /// Memory with every word zero.
    pub fn new() -> (mem: AlignedMemory)
        ensures
            forall|a: u32| mem.spec_word(a) == 0,
    {
        AlignedMemory { words: HashMapWithView::new() }
    }

    /// Reads the aligned word at `addr`.
    pub fn read_word(&self, addr: u32) -> (w: u32)
        requires
            addr & 3u32 == 0,
        ensures
            w == self.spec_word(addr),
    {
        match self.words.get(&addr) {
            Some(w) => *w,
            None => 0,
        }
    }

    /// Writes the aligned word at `addr`, leaving every other word as it
    /// was.
    pub fn write_word(&mut self, addr: u32, value: u32)
        requires
            addr & 3u32 == 0,
        ensures
            final(self).spec_word(addr) == value,
            forall|a: u32| a != addr ==> final(self).spec_word(a) == old(self).spec_word(a),
    {
        self.words.insert(addr, value);
    }
}

} // verus!
