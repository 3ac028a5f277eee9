//! The character decoder: UTF-8 bytes to Unicode scalar values.
use crate::tokenizer::error::ReadError;
use vstd::prelude::*;
use vstd::utf8::*;

verus! {

/// `char::from_u32` gives the character with the given scalar value, and
/// nothing for a surrogate or a value above U+10FFFF.
pub assume_specification[ char::from_u32 ](i: u32) -> (r: Option<char>)
    ensures
        r == if is_scalar(i) {
            Some(i as char)
        } else {
            None::<char>
        },
;

/// An input held in memory, read front to back.
pub struct ByteReader {
    bytes: Vec<u8>,
    pos: usize,
}

/// One decoded item of the input: a character, or the reason why none could
/// be read at that place.
pub type Item = Result<char, ReadError>;

/// What reading one character from the non-empty input `bytes` gives.
///
/// A character is given as soon as the bytes begin with a well-formed encoding
/// of a scalar value. Otherwise the input is malformed: the error consumes the
/// next four bytes, or all of the input where fewer than four are left.
pub open spec fn decode_first(bytes: Seq<u8>) -> Item
    recommends
        bytes.len() > 0,
{
    if valid_first_scalar(bytes) {
        Ok(decode_first_scalar(bytes) as char)
    } else if bytes.len() < 4 {
        Err(ReadError::UnexpectedEof)
    } else {
        Err(ReadError::InvalidData(bytes[0], bytes[1], bytes[2], bytes[3]))
    }
}

/// How many bytes reading one character from the non-empty input `bytes`
/// consumes: always at least one and never more than there are.
pub open spec fn decode_len(bytes: Seq<u8>) -> nat
    recommends
        bytes.len() > 0,
{
    if valid_first_scalar(bytes) {
        length_of_first_scalar(bytes) as nat
    } else if bytes.len() < 4 {
        bytes.len()
    } else {
        4
    }
}

/// Everything that the input `bytes` decodes to, item by item.
pub open spec fn decode_items(bytes: Seq<u8>) -> Seq<Item>
    decreases bytes.len(),
{
    if bytes.len() == 0 {
        Seq::<Item>::empty()
    } else {
        seq![decode_first(bytes)] + decode_items(bytes.skip(decode_len(bytes) as int))
    }
}

/// Reading one character consumes at least one byte and at most what is left.
pub proof fn lemma_decode_len_bounds(bytes: Seq<u8>)
    requires
        bytes.len() > 0,
    ensures
        1 <= decode_len(bytes) <= bytes.len(),
{
}

/// An input decodes to at most one item per byte.
pub proof fn lemma_decode_items_len(bytes: Seq<u8>)
    ensures
        decode_items(bytes).len() <= bytes.len(),
        bytes.len() > 0 ==> decode_items(bytes).len() > 0,
    decreases bytes.len(),
{
    if bytes.len() > 0 {
        lemma_decode_len_bounds(bytes);
        lemma_decode_items_len(bytes.skip(decode_len(bytes) as int));
    }
}

impl ByteReader {
    #[verifier::type_invariant]
    spec fn in_bounds(self) -> bool {
        self.pos <= self.bytes.len()
    }

    /// The bytes that have not been read yet.
    pub closed spec fn remaining(self) -> Seq<u8> {
        self.bytes@.skip(self.pos as int)
    }

    /// A reader at the start of `bytes`.
    pub fn new(bytes: Vec<u8>) -> (r: Self)
        ensures
            r.remaining() == bytes@,
    {
        assert(bytes@.skip(0) =~= bytes@);
        ByteReader { bytes, pos: 0 }
    }

    /// The number of bytes that have not been read yet.
    pub fn remaining_len(&self) -> (n: usize)
        ensures
            n == self.remaining().len(),
    {
        proof {
            use_type_invariant(self);
        }
        self.bytes.len() - self.pos
    }

    /// Whether every byte has been read.
    pub fn is_exhausted(&self) -> (r: bool)
        ensures
            r == (self.remaining().len() == 0),
    {
        self.remaining_len() == 0
    }

    /// The byte `i` places after the next one to be read.
    fn peek_byte(&self, i: usize) -> (b: u8)
        requires
            i < self.remaining().len(),
        ensures
            b == self.remaining()[i as int],
    {
        proof {
            use_type_invariant(self);
        }
        self.bytes[self.pos + i]
    }

    /// Moves past the next `n` bytes.
    fn consume(&mut self, n: usize)
        requires
            n <= old(self).remaining().len(),
        ensures
            final(self).remaining() == old(self).remaining().skip(n as int),
    {
        proof {
            use_type_invariant(&*self);
            assert(self.bytes@.skip(self.pos as int).skip(n as int) =~= self.bytes@.skip(
                self.pos + n,
            ));
        }
        self.pos = self.pos + n;
    }
}

/// The character with the scalar value `cp`.
fn scalar_char(cp: u32) -> (c: char)
    requires
        is_scalar(cp),
    ensures
        c == cp as char,
{
    char::from_u32(cp).unwrap()
}

fn is_continuation(b: u8) -> (r: bool)
    ensures
        r == is_continuation_byte(b),
{
    0x80 <= b && b <= 0xbf
}

/// Reads the next character from `r`.
///
/// Gives `None` at the end of the input, and otherwise the first item that the
/// remaining bytes decode to, moving past the bytes that belong to it.
pub fn read_char(r: &mut ByteReader) -> (res: Option<Item>)
    ensures
        old(r).remaining().len() == 0 ==> res is None && final(r).remaining() == old(
            r,
        ).remaining(),
        old(r).remaining().len() > 0 ==> res == Some(decode_first(old(r).remaining()))
            && final(r).remaining() == old(r).remaining().skip(
            decode_len(old(r).remaining()) as int,
        ),
{
    let ghost bytes = r.remaining();
    let n: usize = r.remaining_len();
    if n == 0 {
        return None;
    }
    let b0: u8 = r.peek_byte(0);
    if b0 <= 0x7f {
        let cp: u32 = (b0 & 0x7f) as u32;
        assert(((b0 & 0x7f) as u32) <= 0x7f) by (bit_vector);
        assert(valid_first_scalar(bytes));
        r.consume(1);
        return Some(Ok(scalar_char(cp)));
    }
    if n >= 2 && 0xc0 <= b0 && b0 <= 0xdf {
        let b1: u8 = r.peek_byte(1);
        if is_continuation(b1) {
            let cp: u32 = (((b0 & 0x1f) as u32) << 6) | ((b1 & 0x3f) as u32);
            assert(((((b0 & 0x1f) as u32) << 6) | ((b1 & 0x3f) as u32)) <= 0x7ff)
                by (bit_vector);
            if cp >= 0x80 {
                assert(valid_first_scalar(bytes));
                r.consume(2);
                return Some(Ok(scalar_char(cp)));
            }
        }
    }
    if n >= 3 && 0xe0 <= b0 && b0 <= 0xef {
        let b1: u8 = r.peek_byte(1);
        let b2: u8 = r.peek_byte(2);
        if is_continuation(b1) && is_continuation(b2) {
            let cp: u32 = (((b0 & 0x0f) as u32) << 12) | (((b1 & 0x3f) as u32) << 6) | ((b2
                & 0x3f) as u32);
            assert(((((b0 & 0x0f) as u32) << 12) | (((b1 & 0x3f) as u32) << 6) | ((b2
                & 0x3f) as u32)) <= 0xffff) by (bit_vector);
            if cp >= 0x800 && !(0xd800 <= cp && cp <= 0xdfff) {
                assert(valid_first_scalar(bytes));
                r.consume(3);
                return Some(Ok(scalar_char(cp)));
            }
        }
    }
    if n >= 4 && 0xf0 <= b0 && b0 <= 0xf7 {
        let b1: u8 = r.peek_byte(1);
        let b2: u8 = r.peek_byte(2);
        let b3: u8 = r.peek_byte(3);
        if is_continuation(b1) && is_continuation(b2) && is_continuation(b3) {
            let cp: u32 = (((b0 & 0x07) as u32) << 18) | (((b1 & 0x3f) as u32) << 12) | (((b2
                & 0x3f) as u32) << 6) | ((b3 & 0x3f) as u32);
            if 0x10000 <= cp && cp <= 0x10ffff {
                assert(valid_first_scalar(bytes));
                r.consume(4);
                return Some(Ok(scalar_char(cp)));
            }
        }
    }
    assert(!valid_first_scalar(bytes));
    if n < 4 {
        r.consume(n);
        Some(Err(ReadError::UnexpectedEof))
    } else {
        let b1: u8 = r.peek_byte(1);
        let b2: u8 = r.peek_byte(2);
        let b3: u8 = r.peek_byte(3);
        r.consume(4);
        Some(Err(ReadError::InvalidData(b0, b1, b2, b3)))
    }
}

} // verus!
