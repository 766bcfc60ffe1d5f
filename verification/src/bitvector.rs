//! Sizes in bytes and constants of a fixed width.

use crate::error::LiftError;
use crate::hex::{
    bytes_number, chars_of, digit_from_end, hex_bytes, hex_digit, hex_digit_of, hex_number,
    is_hex_digits, lemma_hex_bytes_are_low_bytes, lemma_low_bytes_number, low_bytes,
    skip_hex_prefix, without_hex_prefix,
};
use vstd::arithmetic::power::pow;
use vstd::prelude::*;

verus! {

/// A size, a width or an offset, counted in bytes.
#[derive(Debug, Clone, Copy, PartialEq, Eq, Hash, Structural)]
pub struct ByteSize(pub u64);

impl ByteSize {
    /// The size of `bytes` bytes.
    pub fn new(bytes: u64) -> (r: ByteSize)
        ensures
            r == ByteSize(bytes),
    {
        ByteSize(bytes)
    }

    /// The number of bytes.
    pub fn as_u64(self) -> (r: u64)
        ensures
            r == self.0,
    {
        self.0
    }
}

/// A constant of a fixed width: its bytes, least significant byte first.
/// The width of the constant is the number of bytes.
#[derive(Debug, PartialEq, Eq, Hash)]
pub struct Bitvector {
    /// The bytes of the constant, least significant byte first.
    pub bytes: Vec<u8>,
}

impl DeepView for Bitvector {
    type V = Seq<u8>;

    open spec fn deep_view(&self) -> Seq<u8> {
        self.bytes@
    }
}

/// The constant of `size` bytes that a hexadecimal text denotes: the text
/// may start with `0x` markers, and the constant holds the `size` least
/// significant bytes of its number. A number that needs more bytes is cut
/// off, one that needs fewer is filled with zeros.
pub open spec fn constant_of_hex(text: Seq<char>, size: ByteSize) -> Result<Seq<u8>, LiftError> {
    let digits = without_hex_prefix(text);
    if !is_hex_digits(digits) {
        Err(LiftError::InvalidHex)
    } else if size.0 == 0 || size.0 > usize::MAX {
        Err(LiftError::ConstantSize)
    } else {
        Ok(low_bytes(hex_number(digits), size.0 as nat))
    }
}

/// A constant that is read from a hexadecimal text has the size that was
/// asked for, and its bytes denote the number of the text modulo 256 to
/// the power of the size.
pub proof fn lemma_constant_denotes_number(text: Seq<char>, size: ByteSize)
    requires
        constant_of_hex(text, size) is Ok,
    ensures
        constant_of_hex(text, size)->Ok_0.len() == size.0,
        bytes_number(constant_of_hex(text, size)->Ok_0) == hex_number(without_hex_prefix(text)) % (
        pow(256, size.0 as nat) as nat),
{
    lemma_low_bytes_number(hex_number(without_hex_prefix(text)), size.0 as nat);
}

impl Clone for Bitvector {
    fn clone(&self) -> (r: Bitvector)
        ensures
            r.deep_view() == self.deep_view(),
    {
        let mut bytes: Vec<u8> = Vec::new();
        let mut i: usize = 0;
        while i < self.bytes.len()
            invariant
                i <= self.bytes.len(),
                bytes@ == self.bytes@.take(i as int),
            decreases self.bytes.len() - i,
        {
            bytes.push(self.bytes[i]);
            i += 1;
        }
        Bitvector { bytes }
    }
}

/// The value of the digit that stands `k` places before the end of
/// `s[from..]`, or zero where there is none.
fn digit_at(s: &Vec<char>, from: usize, k: usize) -> (r: u8)
    requires
        from <= s.len(),
    ensures
        r == digit_from_end(s@.skip(from as int), k as int),
        r < 16,
{
    let len = s.len() - from;
    if k < len {
        let c = s[s.len() - 1 - k];
        match hex_digit_of(c) {
            Some(d) => d,
            None => 0,
        }
    } else {
        0
    }
}

impl Bitvector {
    /// The width of the constant in bytes.
    pub fn width(&self) -> (r: usize)
        ensures
            r == self.deep_view().len(),
    {
        self.bytes.len()
    }

    /// Reads a constant of `size` bytes from a hexadecimal text.
    pub fn from_hex(text: &str, size: ByteSize) -> (r: Result<Bitvector, LiftError>)
        ensures
            crate::error::outcome(r) == constant_of_hex(text@, size),
    {
        let chars = chars_of(text);
        let start = skip_hex_prefix(&chars);
        let ghost digits = without_hex_prefix(text@);
        let len = chars.len() - start;
        if len == 0 {
            return Err(LiftError::InvalidHex);
        }
        let mut j: usize = start;
        while j < chars.len()
            invariant
                start <= j <= chars.len(),
                digits == chars@.skip(start as int),
                digits == without_hex_prefix(text@),
                forall|k: int| 0 <= k < j - start ==> (#[trigger] hex_digit(digits[k])) is Some,
            decreases chars.len() - j,
        {
            assert(digits[j - start] == chars@[j as int]);
            if hex_digit_of(chars[j]).is_none() {
                return Err(LiftError::InvalidHex);
            }
            j += 1;
        }
        if size.0 == 0 || size.0 > usize::MAX as u64 {
            return Err(LiftError::ConstantSize);
        }
        let n: usize = size.0 as usize;
        let mut bytes: Vec<u8> = Vec::new();
        let mut i: usize = 0;
        while i < n
            invariant
                i <= n,
                start <= chars.len(),
                len == chars.len() - start,
                len >= 1,
                digits == chars@.skip(start as int),
                bytes@ == hex_bytes(digits, i as nat),
            decreases n - i,
        {
            let byte: u8 = if i > (len - 1) / 2 {
                0
            } else {
                let low = digit_at(&chars, start, i + i);
                let high = if i + i + 1 < len {
                    digit_at(&chars, start, i + i + 1)
                } else {
                    0
                };
                high * 16 + low
            };
            bytes.push(byte);
            i += 1;
        }
        proof {
            lemma_hex_bytes_are_low_bytes(digits, n as nat);
        }
        Ok(Bitvector { bytes })
    }
}

} // verus!
