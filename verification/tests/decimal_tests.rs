use consensus_apply::decimal::{parse_i128, to_decimal};

#[test]
fn decimal_writes_canonical_text() {
    assert_eq!(to_decimal(0), b"0".to_vec());
    assert_eq!(to_decimal(7), b"7".to_vec());
    assert_eq!(to_decimal(10), b"10".to_vec());
    assert_eq!(to_decimal(12345), b"12345".to_vec());
    assert_eq!(to_decimal(-7), b"-7".to_vec());
    assert_eq!(to_decimal(-1200), b"-1200".to_vec());
}

#[test]
fn decimal_writes_the_extremes() {
    assert_eq!(
        to_decimal(i128::MAX),
        b"170141183460469231731687303715884105727".to_vec()
    );
    assert_eq!(
        to_decimal(i128::MIN),
        b"-170141183460469231731687303715884105728".to_vec()
    );
}

#[test]
fn decimal_reads_signs_and_leading_zeros() {
    assert_eq!(parse_i128(b"0"), Some(0));
    assert_eq!(parse_i128(b"42"), Some(42));
    assert_eq!(parse_i128(b"+5"), Some(5));
    assert_eq!(parse_i128(b"-5"), Some(-5));
    assert_eq!(parse_i128(b"-0"), Some(0));
    assert_eq!(parse_i128(b"007"), Some(7));
}

#[test]
fn decimal_refuses_what_is_no_number() {
    assert_eq!(parse_i128(b""), None);
    assert_eq!(parse_i128(b"+"), None);
    assert_eq!(parse_i128(b"-"), None);
    assert_eq!(parse_i128(b"12a"), None);
    assert_eq!(parse_i128(b" 12"), None);
    assert_eq!(parse_i128(b"1 2"), None);
    assert_eq!(parse_i128(b"--1"), None);
    assert_eq!(parse_i128(b"1.5"), None);
    assert_eq!(parse_i128(&[0xff, 0x31]), None);
}

#[test]
fn decimal_reads_the_extremes_and_no_further() {
    assert_eq!(
        parse_i128(b"170141183460469231731687303715884105727"),
        Some(i128::MAX)
    );
    assert_eq!(
        parse_i128(b"-170141183460469231731687303715884105728"),
        Some(i128::MIN)
    );
    assert_eq!(parse_i128(b"170141183460469231731687303715884105728"), None);
    assert_eq!(parse_i128(b"-170141183460469231731687303715884105729"), None);
    assert_eq!(
        parse_i128(b"99999999999999999999999999999999999999999999"),
        None
    );
}

#[test]
fn decimal_agrees_with_the_standard_library() {
    let samples: [i128; 9] = [0, 1, -1, 9, 10, 99, -100, i128::MAX, i128::MIN];
    for v in samples {
        assert_eq!(to_decimal(v), v.to_string().into_bytes());
        assert_eq!(parse_i128(&to_decimal(v)), Some(v));
    }
    let texts: [&str; 8] = ["", "+", "-", "+0", "-00", "0012", "12x", "340282366920938463463374607431768211456"];
    for t in texts {
        assert_eq!(parse_i128(t.as_bytes()), t.parse::<i128>().ok());
    }
}
