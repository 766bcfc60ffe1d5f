use pcode_lift::bitvector::{Bitvector, ByteSize};
use pcode_lift::error::LiftError;
use pcode_lift::hex::{chars_of, hex_digit_of, parse_hex_i64, parse_hex_u64};
use pcode_lift::text::{append_decimal, clone_texts};
use pcode_lift::tid::{Term, Tid};

#[test]
fn hex_digit_values() {
    assert_eq!(hex_digit_of('0'), Some(0));
    assert_eq!(hex_digit_of('9'), Some(9));
    assert_eq!(hex_digit_of('a'), Some(10));
    assert_eq!(hex_digit_of('f'), Some(15));
    assert_eq!(hex_digit_of('A'), Some(10));
    assert_eq!(hex_digit_of('F'), Some(15));
    assert_eq!(hex_digit_of('g'), None);
    assert_eq!(hex_digit_of('G'), None);
    assert_eq!(hex_digit_of('x'), None);
    assert_eq!(hex_digit_of(' '), None);
    assert_eq!(hex_digit_of('/'), None);
    assert_eq!(hex_digit_of(':'), None);
    assert_eq!(hex_digit_of('@'), None);
    assert_eq!(hex_digit_of('`'), None);
}

#[test]
fn chars_of_keeps_every_character() {
    assert_eq!(chars_of(""), Vec::<char>::new());
    assert_eq!(chars_of("0x1f"), vec!['0', 'x', '1', 'f']);
    assert_eq!(chars_of("aäb"), vec!['a', 'ä', 'b']);
}

#[test]
fn unsigned_hex_plain_digits() {
    assert_eq!(parse_hex_u64("0"), Some(0));
    assert_eq!(parse_hex_u64("10"), Some(16));
    assert_eq!(parse_hex_u64("1000"), Some(0x1000));
    assert_eq!(parse_hex_u64("FF"), Some(255));
    assert_eq!(parse_hex_u64("fF"), Some(255));
    assert_eq!(parse_hex_u64("0000000000000000000000001"), Some(1));
}

#[test]
fn unsigned_hex_markers_and_sign() {
    assert_eq!(parse_hex_u64("0x1000"), Some(0x1000));
    assert_eq!(parse_hex_u64("0x0x10"), Some(16));
    assert_eq!(parse_hex_u64("+10"), Some(16));
    assert_eq!(parse_hex_u64("0x+10"), Some(16));
    assert_eq!(parse_hex_u64("0X10"), None);
    assert_eq!(parse_hex_u64("+0x10"), None);
    assert_eq!(parse_hex_u64("-10"), None);
    assert_eq!(parse_hex_u64("++10"), None);
}

#[test]
fn unsigned_hex_rejects_what_is_no_number() {
    assert_eq!(parse_hex_u64(""), None);
    assert_eq!(parse_hex_u64("0x"), None);
    assert_eq!(parse_hex_u64("+"), None);
    assert_eq!(parse_hex_u64("g"), None);
    assert_eq!(parse_hex_u64("12g4"), None);
    assert_eq!(parse_hex_u64(" 10"), None);
    assert_eq!(parse_hex_u64("10 "), None);
    assert_eq!(parse_hex_u64("1_0"), None);
}

#[test]
fn unsigned_hex_limits() {
    assert_eq!(parse_hex_u64("ffffffffffffffff"), Some(u64::MAX));
    assert_eq!(parse_hex_u64("0xffffffffffffffff"), Some(u64::MAX));
    assert_eq!(parse_hex_u64("10000000000000000"), None);
    assert_eq!(parse_hex_u64("fffffffffffffffff"), None);
    assert_eq!(parse_hex_u64("00ffffffffffffffff"), Some(u64::MAX));
}

#[test]
fn signed_hex_values() {
    assert_eq!(parse_hex_i64("0"), Some(0));
    assert_eq!(parse_hex_i64("10"), Some(16));
    assert_eq!(parse_hex_i64("0x10"), Some(16));
    assert_eq!(parse_hex_i64("+a"), Some(10));
    assert_eq!(parse_hex_i64("-10"), Some(-16));
    assert_eq!(parse_hex_i64("0x-10"), Some(-16));
    assert_eq!(parse_hex_i64("-0"), Some(0));
}

#[test]
fn signed_hex_rejects_what_is_no_number() {
    assert_eq!(parse_hex_i64(""), None);
    assert_eq!(parse_hex_i64("-"), None);
    assert_eq!(parse_hex_i64("+"), None);
    assert_eq!(parse_hex_i64("0x"), None);
    assert_eq!(parse_hex_i64("-0x10"), None);
    assert_eq!(parse_hex_i64("--1"), None);
    assert_eq!(parse_hex_i64("1-"), None);
    assert_eq!(parse_hex_i64("zz"), None);
}

#[test]
fn signed_hex_limits() {
    assert_eq!(parse_hex_i64("7fffffffffffffff"), Some(i64::MAX));
    assert_eq!(parse_hex_i64("8000000000000000"), None);
    assert_eq!(parse_hex_i64("ffffffffffffffff"), None);
    assert_eq!(parse_hex_i64("-7fffffffffffffff"), Some(-i64::MAX));
    assert_eq!(parse_hex_i64("-8000000000000000"), Some(i64::MIN));
    assert_eq!(parse_hex_i64("-8000000000000001"), None);
}

#[test]
fn constant_has_its_bytes_in_little_endian_order() {
    let c = Bitvector::from_hex("12345678", ByteSize::new(4)).unwrap();
    assert_eq!(c.bytes, vec![0x78, 0x56, 0x34, 0x12]);
    assert_eq!(c.width(), 4);
}

#[test]
fn constant_is_filled_with_zeros() {
    let c = Bitvector::from_hex("123", ByteSize::new(4)).unwrap();
    assert_eq!(c.bytes, vec![0x23, 0x01, 0x00, 0x00]);
    let d = Bitvector::from_hex("1", ByteSize::new(8)).unwrap();
    assert_eq!(d.bytes, vec![1, 0, 0, 0, 0, 0, 0, 0]);
}

#[test]
fn constant_is_cut_off() {
    let c = Bitvector::from_hex("12345678", ByteSize::new(2)).unwrap();
    assert_eq!(c.bytes, vec![0x78, 0x56]);
    let d = Bitvector::from_hex("abc", ByteSize::new(1)).unwrap();
    assert_eq!(d.bytes, vec![0xbc]);
}

#[test]
fn constant_may_carry_a_marker() {
    let c = Bitvector::from_hex("0x10", ByteSize::new(1)).unwrap();
    assert_eq!(c.bytes, vec![0x10]);
    let d = Bitvector::from_hex("0xABCDEF", ByteSize::new(3)).unwrap();
    assert_eq!(d.bytes, vec![0xef, 0xcd, 0xab]);
}

#[test]
fn constant_of_sixteen_bytes() {
    let c = Bitvector::from_hex("0102030405060708090a0b0c0d0e0f10", ByteSize::new(16)).unwrap();
    assert_eq!(
        c.bytes,
        vec![16, 15, 14, 13, 12, 11, 10, 9, 8, 7, 6, 5, 4, 3, 2, 1]
    );
}

#[test]
fn constant_rejects_bad_text() {
    assert_eq!(
        Bitvector::from_hex("", ByteSize::new(4)),
        Err(LiftError::InvalidHex)
    );
    assert_eq!(
        Bitvector::from_hex("0x", ByteSize::new(4)),
        Err(LiftError::InvalidHex)
    );
    assert_eq!(
        Bitvector::from_hex("12x4", ByteSize::new(4)),
        Err(LiftError::InvalidHex)
    );
    assert_eq!(
        Bitvector::from_hex("+12", ByteSize::new(4)),
        Err(LiftError::InvalidHex)
    );
    assert_eq!(
        Bitvector::from_hex("-12", ByteSize::new(4)),
        Err(LiftError::InvalidHex)
    );
}

#[test]
fn constant_rejects_size_zero() {
    assert_eq!(
        Bitvector::from_hex("12", ByteSize::new(0)),
        Err(LiftError::ConstantSize)
    );
}

#[test]
fn bad_text_comes_before_bad_size() {
    assert_eq!(
        Bitvector::from_hex("xyz", ByteSize::new(0)),
        Err(LiftError::InvalidHex)
    );
}

#[test]
fn constant_clone_is_equal() {
    let c = Bitvector::from_hex("cafe", ByteSize::new(2)).unwrap();
    assert_eq!(c.clone(), c);
}

#[test]
fn decimal_numerals() {
    assert_eq!(append_decimal(String::from("a"), 0), "a0");
    assert_eq!(append_decimal(String::from("a"), 7), "a7");
    assert_eq!(append_decimal(String::from("a"), 10), "a10");
    assert_eq!(append_decimal(String::new(), 12345), "12345");
    assert_eq!(append_decimal(String::from("$load_temp"), 109), "$load_temp109");
    assert_eq!(
        append_decimal(String::new(), usize::MAX),
        usize::MAX.to_string()
    );
}

#[test]
fn texts_are_copied() {
    let texts = vec![String::from("a"), String::new(), String::from("bc")];
    assert_eq!(clone_texts(&texts), texts);
    assert_eq!(clone_texts(&Vec::new()), Vec::<String>::new());
}

#[test]
fn root_identifier() {
    let tid = Tid::new("blk_1000");
    assert_eq!(tid.id, "blk_1000");
    assert_eq!(tid.address, "UNKNOWN");
}

#[test]
fn child_identifier_keeps_the_address() {
    let tid = Tid {
        id: String::from("instr_1000_2"),
        address: String::from("1000"),
    };
    let child = tid.clone().with_id_suffix("_load1");
    assert_eq!(child.id, "instr_1000_2_load1");
    assert_eq!(child.address, "1000");
    assert_ne!(child, tid);
    assert_eq!(tid.clone().with_id_suffix(""), tid);
}

#[test]
fn term_pairs_identifier_and_content() {
    let term = Term {
        tid: Tid::new("t"),
        term: 5u8,
    };
    assert_eq!(term.clone(), term);
    assert_eq!(term.term, 5);
}
