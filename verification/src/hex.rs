//! Hexadecimal texts as the disassembler writes them, and their values.

use vstd::arithmetic::div_mod::lemma_breakdown;
use vstd::arithmetic::power::{lemma_pow0, lemma_pow_positive, pow};
use vstd::prelude::*;
use vstd::string::StrSliceExecFns;

verus! {

/// The value of a hexadecimal digit, in either case.
pub open spec fn hex_digit(c: char) -> Option<nat> {
    let n = c as u32;
    if 0x30 <= n <= 0x39 {
        Some((n - 0x30) as nat)
    } else if 0x61 <= n <= 0x66 {
        Some((n - 0x61 + 10) as nat)
    } else if 0x41 <= n <= 0x46 {
        Some((n - 0x41 + 10) as nat)
    } else {
        None
    }
}

/// `s` is a non-empty run of hexadecimal digits.
pub open spec fn is_hex_digits(s: Seq<char>) -> bool {
    s.len() > 0 && forall|i: int| 0 <= i < s.len() ==> (#[trigger] hex_digit(s[i])) is Some
}

/// The number that a run of hexadecimal digits denotes, most significant
/// digit first. A character that is no digit counts as zero.
pub open spec fn hex_number(s: Seq<char>) -> nat
    decreases s.len(),
{
    if s.len() == 0 {
        0
    } else {
        16 * hex_number(s.drop_last()) + match hex_digit(s.last()) {
            Some(d) => d,
            None => 0,
        }
    }
}

/// The number of leading characters of `s` that form repetitions of the
/// marker `0x`.
pub open spec fn hex_prefix_len(s: Seq<char>) -> nat
    decreases s.len(),
{
    if s.len() >= 2 && s[0] == '0' && s[1] == 'x' {
        2 + hex_prefix_len(s.skip(2))
    } else {
        0
    }
}

/// `s` without its leading repetitions of the marker `0x`.
pub open spec fn without_hex_prefix(s: Seq<char>) -> Seq<char> {
    s.skip(hex_prefix_len(s) as int)
}

/// The value of an unsigned hexadecimal text: any number of `0x` markers,
/// an optional `+`, and at least one digit. `None` for any other text.
pub open spec fn unsigned_hex(text: Seq<char>) -> Option<nat> {
    let body = without_hex_prefix(text);
    let digits = if body.len() > 0 && body[0] == '+' {
        body.skip(1)
    } else {
        body
    };
    if is_hex_digits(digits) {
        Some(hex_number(digits))
    } else {
        None
    }
}

/// The value of a signed hexadecimal text: any number of `0x` markers, an
/// optional `+` or `-`, and at least one digit. `None` for any other text.
pub open spec fn signed_hex(text: Seq<char>) -> Option<int> {
    let body = without_hex_prefix(text);
    if body.len() > 0 && body[0] == '-' {
        if is_hex_digits(body.skip(1)) {
            Some(-(hex_number(body.skip(1)) as int))
        } else {
            None
        }
    } else {
        match unsigned_hex(body) {
            Some(n) => Some(n as int),
            None => None,
        }
    }
}

/// The digit that stands `k` places before the last one, or zero where the
/// text is shorter.
pub open spec fn digit_from_end(s: Seq<char>, k: int) -> nat {
    if 0 <= k < s.len() {
        match hex_digit(s[s.len() - 1 - k]) {
            Some(d) => d,
            None => 0,
        }
    } else {
        0
    }
}

/// The byte of weight `256^i` in the number that the digits `s` denote.
pub open spec fn hex_byte(s: Seq<char>, i: int) -> u8 {
    (16 * digit_from_end(s, 2 * i + 1) + digit_from_end(s, 2 * i)) as u8
}

/// The `n` least significant bytes of the number that the digits `s`
/// denote, least significant byte first. Higher digits are cut off,
/// missing ones are zero.
pub open spec fn hex_bytes(s: Seq<char>, n: nat) -> Seq<u8> {
    Seq::new(n, |i: int| hex_byte(s, i))
}

/// The `n` least significant bytes of a number, least significant byte
/// first.
pub open spec fn low_bytes(v: nat, n: nat) -> Seq<u8>
    decreases n,
{
    if n == 0 {
        Seq::empty()
    } else {
        seq![(v % 256) as u8] + low_bytes(v / 256, (n - 1) as nat)
    }
}

/// The number that bytes denote, least significant byte first.
pub open spec fn bytes_number(bytes: Seq<u8>) -> nat
    decreases bytes.len(),
{
    if bytes.len() == 0 {
        0
    } else {
        bytes[0] as nat + 256 * bytes_number(bytes.skip(1))
    }
}

/// The text without its last two digits.
pub open spec fn without_last_byte(s: Seq<char>) -> Seq<char> {
    if s.len() >= 2 {
        s.take(s.len() - 2)
    } else {
        Seq::empty()
    }
}

/// The last two digits of a text are the least significant byte of its
/// number, and the digits before them are the number divided by 256.
pub proof fn lemma_last_byte(s: Seq<char>)
    ensures
        hex_byte(s, 0) == hex_number(s) % 256,
        hex_number(without_last_byte(s)) == hex_number(s) / 256,
{
    if s.len() >= 2 {
        let t = s.drop_last();
        assert(t.drop_last() =~= without_last_byte(s));
        assert(hex_number(s) == 16 * hex_number(t) + digit_from_end(s, 0));
    } else if s.len() == 1 {
        assert(hex_number(s.drop_last()) == 0);
    }
}

/// The bytes that are read off the digits of a text are the least
/// significant bytes of the number that the text denotes.
pub proof fn lemma_hex_bytes_are_low_bytes(s: Seq<char>, n: nat)
    ensures
        hex_bytes(s, n) == low_bytes(hex_number(s), n),
    decreases n,
{
    if n > 0 {
        lemma_last_byte(s);
        lemma_hex_bytes_are_low_bytes(without_last_byte(s), (n - 1) as nat);
    }
}

/// The least significant bytes of a number denote the number, cut off
/// at their width.
pub proof fn lemma_low_bytes_number(v: nat, n: nat)
    ensures
        low_bytes(v, n).len() == n,
        bytes_number(low_bytes(v, n)) == v % (pow(256, n) as nat),
    decreases n,
{
    if n == 0 {
        assert(pow(256, 0) == 1) by {
            lemma_pow0(256);
        }
    } else {
        let m = (n - 1) as nat;
        lemma_low_bytes_number(v / 256, m);
        let bytes = low_bytes(v, n);
        assert(bytes.skip(1) =~= low_bytes(v / 256, m));
        lemma_pow_positive(256, m);
        assert(pow(256, n) == 256 * pow(256, m)) by {
            reveal(pow);
        }
        let p = pow(256, m);
        assert(v % 256 + 256 * ((v as int / 256) % p) == v as int % (256 * p)) by {
            lemma_breakdown(v as int, 256, p);
        }
    }
}

/// A number does not shrink when digits are appended to its text.
pub proof fn lemma_hex_number_grows(s: Seq<char>, k: int)
    requires
        0 <= k <= s.len(),
    ensures
        hex_number(s.take(k)) <= hex_number(s),
    decreases s.len() - k,
{
    if k == s.len() {
        assert(s.take(k) =~= s);
    } else {
        lemma_hex_number_grows(s, k + 1);
        assert(s.take(k + 1).drop_last() =~= s.take(k));
    }
}

/// The characters of a text.
pub fn chars_of(text: &str) -> (r: Vec<char>)
    ensures
        r@ == text@,
{
    let n = text.unicode_len();
    let mut out: Vec<char> = Vec::new();
    let mut i: usize = 0;
    while i < n
        invariant
            i <= n,
            n == text@.len(),
            out@ == text@.take(i as int),
        decreases n - i,
    {
        out.push(text.get_char(i));
        i += 1;
    }
    out
}

/// The value of a hexadecimal digit, if `c` is one.
pub fn hex_digit_of(c: char) -> (r: Option<u8>)
    ensures
        match r {
            Some(d) => hex_digit(c) == Some(d as nat) && d < 16,
            None => hex_digit(c) is None,
        },
{
    let n: u32 = c as u32;
    if 0x30 <= n && n <= 0x39 {
        Some((n - 0x30) as u8)
    } else if 0x61 <= n && n <= 0x66 {
        Some((n - 0x61 + 10) as u8)
    } else if 0x41 <= n && n <= 0x46 {
        Some((n - 0x41 + 10) as u8)
    } else {
        None
    }
}

/// The position behind the leading `0x` markers of `s`.
pub fn skip_hex_prefix(s: &Vec<char>) -> (r: usize)
    ensures
        r == hex_prefix_len(s@),
        r <= s.len(),
{
    let n = s.len();
    let mut i: usize = 0;
    assert(s@.skip(0) =~= s@);
    while i < n && n - i >= 2 && s[i] == '0' && s[i + 1] == 'x'
        invariant
            i <= n,
            n == s.len(),
            hex_prefix_len(s@) == i + hex_prefix_len(s@.skip(i as int)),
        decreases n - i,
    {
        assert(s@.skip(i as int).skip(2) =~= s@.skip(i as int + 2));
        i += 2;
    }
    i
}

/// The number that the digits `s[from..]` denote, where they are a
/// non-empty run of hexadecimal digits whose number is at most `limit`.
pub fn digits_value(s: &Vec<char>, from: usize, limit: u64) -> (r: Option<u64>)
    requires
        from <= s.len(),
    ensures
        r == if is_hex_digits(s@.skip(from as int)) && hex_number(s@.skip(from as int)) <= limit {
            Some(hex_number(s@.skip(from as int)) as u64)
        } else {
            None
        },
{
    let n = s.len();
    let ghost digits = s@.skip(from as int);
    if from == n {
        return None;
    }
    let mut acc: u64 = 0;
    let mut i: usize = from;
    while i < n
        invariant
            from <= i <= n,
            n == s.len(),
            digits == s@.skip(from as int),
            acc == hex_number(digits.take(i - from)),
            acc <= limit,
            forall|k: int| 0 <= k < i - from ==> (#[trigger] hex_digit(digits[k])) is Some,
        decreases n - i,
    {
        let ghost k = i - from;
        assert(digits[k] == s@[i as int]);
        assert(digits.take(k + 1).drop_last() =~= digits.take(k));
        match hex_digit_of(s[i]) {
            None => {
                return None;
            },
            Some(d) => {
                if limit < d as u64 || acc > (limit - d as u64) / 16 {
                    proof {
                        lemma_hex_number_grows(digits, k + 1);
                    }
                    return None;
                }
                acc = acc * 16 + d as u64;
            },
        }
        i += 1;
    }
    assert(digits.take(n - from) =~= digits);
    Some(acc)
}

/// Parses an unsigned hexadecimal text into 64 bits.
pub fn parse_hex_u64(text: &str) -> (r: Option<u64>)
    ensures
        r == match unsigned_hex(text@) {
            Some(n) => if n <= u64::MAX {
                Some(n as u64)
            } else {
                None
            },
            None => None,
        },
{
    let chars = chars_of(text);
    let start = skip_hex_prefix(&chars);
    let ghost body = without_hex_prefix(text@);
    if start < chars.len() && chars[start] == '+' {
        assert(body.skip(1) =~= chars@.skip(start + 1));
        digits_value(&chars, start + 1, u64::MAX)
    } else {
        digits_value(&chars, start, u64::MAX)
    }
}

/// Parses a signed hexadecimal text into 64 bits.
pub fn parse_hex_i64(text: &str) -> (r: Option<i64>)
    ensures
        r == match signed_hex(text@) {
            Some(n) => if i64::MIN <= n <= i64::MAX {
                Some(n as i64)
            } else {
                None
            },
            None => None,
        },
{
    let chars = chars_of(text);
    let start = skip_hex_prefix(&chars);
    let ghost body = without_hex_prefix(text@);
    if start < chars.len() && chars[start] == '-' {
        assert(body.skip(1) =~= chars@.skip(start + 1));
        match digits_value(&chars, start + 1, 0x8000_0000_0000_0000u64) {
            Some(m) => {
                if m == 0x8000_0000_0000_0000u64 {
                    Some(i64::MIN)
                } else {
                    Some(-(m as i64))
                }
            },
            None => None,
        }
    } else {
        proof {
            assert(hex_prefix_len(body) == 0) by {
                lemma_prefix_is_gone(text@);
            }
            assert(without_hex_prefix(body) =~= body);
        }
        if start < chars.len() && chars[start] == '+' {
            assert(body.skip(1) =~= chars@.skip(start + 1));
            match digits_value(&chars, start + 1, 0x7fff_ffff_ffff_ffffu64) {
                Some(m) => Some(m as i64),
                None => None,
            }
        } else {
            match digits_value(&chars, start, 0x7fff_ffff_ffff_ffffu64) {
                Some(m) => Some(m as i64),
                None => None,
            }
        }
    }
}

/// What is left behind the `0x` markers starts with no such marker.
pub proof fn lemma_prefix_is_gone(s: Seq<char>)
    ensures
        hex_prefix_len(without_hex_prefix(s)) == 0,
        hex_prefix_len(s) <= s.len(),
    decreases s.len(),
{
    if s.len() >= 2 && s[0] == '0' && s[1] == 'x' {
        lemma_prefix_is_gone(s.skip(2));
    }
}

} // verus!
