//! Byte-to-word packing for the demonstration console.
//!
//! The console device accepts whole 32-bit words at a fixed address.  The
//! packing logic lives here; actually writing a word out to the device is
//! the surrounding runtime's business, so the two emitting operations hand
//! the finished word back to their caller instead of touching the device.

use vstd::prelude::*;

verus! {

/// The word-sized doorbell address the demonstration console writes to.
pub const QUASI_UART_ADDRESS: u32 = 0x0000_0004;

/// The little-endian 32-bit word made of four bytes.
pub open spec fn spec_le_word(b0: u8, b1: u8, b2: u8, b3: u8) -> u32 {
    (b0 as u32) | ((b1 as u32) << 8u32) | ((b2 as u32) << 16u32) | ((b3 as u32) << 24u32)
}

/// A console that gathers bytes into 4-byte groups before they go out as
/// one word each.
pub struct QuasiUART {
    pub address: u32,
    pub buffer: [u8; 4],
    pub len: usize,
}

impl QuasiUART {
    /// The fill level never reaches the buffer's size at rest.
    pub open spec fn wf(self) -> bool {
        self.len < 4
    }

    /// A console bound to `address` with an empty buffer.
    #[inline(never)]
    pub fn new(address: u32) -> (uart: QuasiUART)
        ensures
            uart.wf(),
            uart.address == address,
            uart.len == 0,
    {
        QuasiUART { address, buffer: [0u8; 4], len: 0 }
    }

    /// Buffers one byte.  When the byte completes a 4-byte group, the
    /// group is handed back as the little-endian word that should go out
    /// to the device, and the buffer starts over.
    #[inline(never)]
    pub fn write_byte(&mut self, byte: u8) -> (emit: Option<u32>)
        requires
            old(self).wf(),
        ensures
            final(self).wf(),
            final(self).address == old(self).address,
            final(self).buffer@ == old(self).buffer@.update(old(self).len as int, byte),
            if old(self).len < 3 {
                emit is None && final(self).len == old(self).len + 1
            } else {
                emit == Some(
                    spec_le_word(
                        old(self).buffer@[0],
                        old(self).buffer@[1],
                        old(self).buffer@[2],
                        byte,
                    ),
                ) && final(self).len == 0
            },
    {
        self.buffer[self.len] = byte;
        self.len = self.len + 1;
        if self.len == 4 {
            self.len = 0;
            let word = (self.buffer[0] as u32) | ((self.buffer[1] as u32) << 8) | ((self.buffer[2]
                as u32) << 16) | ((self.buffer[3] as u32) << 24);
            Some(word)
        } else {
            None
        }
    }

    /// Zero-fills the unused tail of the buffer and hands back the word
    /// that should flush the partial group out to the device; the buffer
    /// starts a new group.
    pub fn flush(&mut self) -> (word: u32)
        requires
            old(self).wf(),
        ensures
            final(self).wf(),
            final(self).address == old(self).address,
            final(self).len == 0,
            word == spec_le_word(
                if old(self).len > 0 {
                    old(self).buffer@[0]
                } else {
                    0
                },
                if old(self).len > 1 {
                    old(self).buffer@[1]
                } else {
                    0
                },
                if old(self).len > 2 {
                    old(self).buffer@[2]
                } else {
                    0
                },
                0,
            ),
    {
        let mut i: usize = self.len;
        while i < 4
            invariant
                old(self).len <= i <= 4,
                self.len == old(self).len,
                self.len < 4,
                self.address == old(self).address,
                forall|k: int| 0 <= k < old(self).len ==> self.buffer@[k] == old(self).buffer@[k],
                forall|k: int| old(self).len <= k < i ==> self.buffer@[k] == 0,
            decreases 4 - i,
        {
            self.buffer[i] = 0u8;
            i = i + 1;
        }
        self.len = 0;
        (self.buffer[0] as u32) | ((self.buffer[1] as u32) << 8) | ((self.buffer[2] as u32) << 16)
            | ((self.buffer[3] as u32) << 24)
    }
}

} // verus!
