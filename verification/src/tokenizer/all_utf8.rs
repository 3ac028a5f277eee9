//! A source of test input: every Unicode scalar value, encoded in UTF-8.
use vstd::prelude::*;
use vstd::utf8::*;

verus! {

/// Yields, byte by byte, the UTF-8 encoding of every code point from U+0000
/// to U+10FFFF in ascending order. A surrogate has no encoding: in the place
/// of each one stands U+E000, the first scalar value after them.
pub struct AllUTF8CharReader {
    /// How many bytes have been yielded.
    pub pos: usize,
}

/// The scalar value that the sequence holds for the code point `index`.
pub open spec fn sequence_scalar(index: nat) -> u32 {
    if 0xD800 <= index <= 0xDFFF {
        0xE000
    } else {
        index as u32
    }
}

/// Where byte `pos` of the sequence lies: the code point it belongs to and
/// its place in the encoding of that code point. The code points below U+0080
/// take one byte each, those below U+0800 two, those below U+10000 three and
/// the others four.
pub open spec fn sequence_slot(pos: nat) -> Option<(nat, nat)> {
    if pos < 0x80 {
        Some((pos, 0nat))
    } else if pos < 0xF80 {
        Some(((0x80 + (pos - 0x80) / 2) as nat, ((pos - 0x80) % 2) as nat))
    } else if pos < 0x2F780 {
        Some(((0x800 + (pos - 0xF80) / 3) as nat, ((pos - 0xF80) % 3) as nat))
    } else if pos < 0x42F780 {
        Some(((0x10000 + (pos - 0x2F780) / 4) as nat, ((pos - 0x2F780) % 4) as nat))
    } else {
        None
    }
}

/// Byte `pos` of the sequence, if the sequence is that long.
pub open spec fn sequence_byte(pos: nat) -> Option<u8> {
    match sequence_slot(pos) {
        Some((index, k)) => Some(encode_scalar(sequence_scalar(index))[k as int]),
        None => None,
    }
}

/// Every byte of the sequence lies inside the encoding of a scalar value.
pub proof fn lemma_sequence_slot_in_encoding(pos: nat)
    requires
        sequence_slot(pos) is Some,
    ensures
        match sequence_slot(pos) {
            Some((index, k)) => index <= 0x10FFFF && is_scalar(sequence_scalar(index)) && k
                < encode_scalar(sequence_scalar(index)).len(),
            None => true,
        },
{
}

impl AllUTF8CharReader {
    /// The next byte of the sequence, or `None` once every code point has
    /// been yielded.
    pub fn next_u8(&mut self) -> (r: Option<u8>)
        ensures
            r == sequence_byte(old(self).pos as nat),
            r is Some ==> final(self).pos == old(self).pos + 1,
            r is None ==> final(self).pos == old(self).pos,
    {
        let pos: usize = self.pos;
        let res: u8;
        if pos <= 0x7f {
            // Single byte characters
            let scalar: u32 = pos as u32;
            assert((scalar & 0x7F) == scalar) by (bit_vector)
                requires
                    scalar <= 0x7f,
            ;
            res = pos as u8;
        } else if pos < 0xF80 {
            // 2-byte characters
            let scalar: u32 = (0x80 + (pos - 0x80) / 2) as u32;
            assert(((scalar >> 6) & 0x1F) <= 0x1F && (scalar & 0x3F) <= 0x3F) by (bit_vector);
            let b1: u8 = 0xC0 | (((scalar >> 6) & 0x1F) as u8);
            let b2: u8 = 0x80 | ((scalar & 0x3F) as u8);
            res = if (pos - 0x80) % 2 == 0 {
                b1
            } else {
                b2
            };
        } else if pos < 0x2F780 {
            // 3-byte characters
            let index: u32 = (0x800 + (pos - 0xF80) / 3) as u32;
            // 0xd800 - 0xdfff are not valid unicode values, they are surrogate halves used
            // by UTF-16
            let scalar: u32 = if index >= 0xd800 && index <= 0xdfff {
                0xe000
            } else {
                index
            };
            assert(((scalar >> 12) & 0x0F) <= 0x0F && ((scalar >> 6) & 0x3F) <= 0x3F && (scalar
                & 0x3F) <= 0x3F) by (bit_vector);
            let b1: u8 = 0xE0 | (((scalar >> 12) & 0x0F) as u8);
            let b2: u8 = 0x80 | (((scalar >> 6) & 0x3F) as u8);
            let b3: u8 = 0x80 | ((scalar & 0x3F) as u8);
            let k: usize = (pos - 0xF80) % 3;
            res = if k == 0 {
                b1
            } else if k == 1 {
                b2
            } else {
                b3
            };
        } else if pos < 0x42F780 {
            // 4-byte characters
            let scalar: u32 = (0x10000 + (pos - 0x2F780) / 4) as u32;
            assert(((scalar >> 18) & 0x7) <= 0x7 && ((scalar >> 12) & 0x3F) <= 0x3F && ((scalar
                >> 6) & 0x3F) <= 0x3F && (scalar & 0x3F) <= 0x3F) by (bit_vector);
            let b1: u8 = 0xF0 | (((scalar >> 18) & 0x7) as u8);
            let b2: u8 = 0x80 | (((scalar >> 12) & 0x3F) as u8);
            let b3: u8 = 0x80 | (((scalar >> 6) & 0x3F) as u8);
            let b4: u8 = 0x80 | ((scalar & 0x3F) as u8);
            let k: usize = (pos - 0x2F780) % 4;
            res = if k == 0 {
                b1
            } else if k == 1 {
                b2
            } else if k == 2 {
                b3
            } else {
                b4
            };
        } else {
            // All valid codepoints have been read
            return None;
        }
        self.pos = pos + 1;
        Some(res)
    }

    /// Fills `buf` with the next bytes of the sequence, as far as the
    /// sequence goes, and returns how many bytes were written.
    pub fn read(&mut self, buf: &mut [u8]) -> (n: usize)
        ensures
            n <= old(buf)@.len(),
            final(buf)@.len() == old(buf)@.len(),
            final(self).pos == old(self).pos + n,
            forall|i: int|
                0 <= i < n ==> sequence_byte((old(self).pos + i) as nat) == Some(
                    #[trigger] final(buf)@[i],
                ),
            forall|i: int|
                n <= i < old(buf)@.len() ==> #[trigger] final(buf)@[i] == old(buf)@[i],
            n < old(buf)@.len() ==> sequence_byte(final(self).pos as nat) is None,
    {
        let len: usize = buf.len();
        let mut i: usize = 0;
        while i < len
            invariant
                i <= len,
                len == buf@.len(),
                buf@.len() == old(buf)@.len(),
                self.pos == old(self).pos + i,
                forall|k: int|
                    0 <= k < i ==> sequence_byte((old(self).pos + k) as nat) == Some(
                        #[trigger] buf@[k],
                    ),
                forall|k: int| i <= k < len ==> #[trigger] buf@[k] == old(buf)@[k],
            decreases len - i,
        {
            match self.next_u8() {
                Some(c) => {
                    buf[i] = c;
                },
                None => {
                    return i;
                },
            }
            i += 1;
        }
        len
    }
}

} // verus!
