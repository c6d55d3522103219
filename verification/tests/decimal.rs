use ubiquitimes::decimal::{parse_u64, u64_to_decimal, ParseIntError};

#[test]
fn renders_like_to_string() {
    for n in [0u64, 7, 10, 99, 100, 12345, 1234567890123, u64::MAX] {
        assert_eq!(u64_to_decimal(n), n.to_string());
    }
}

#[test]
fn parses_like_std() {
    let cases = [
        "0", "42", "+42", "007", "18446744073709551615", "18446744073709551616",
        "", "+", "-", "-1", "12a", "99999999999999999999x", "x99999999999999999999",
        " 1", "1 ", "１２", "+-1", "++1",
    ];
    for s in cases {
        let ours = parse_u64(s);
        let std = s.parse::<u64>();
        match (ours, std) {
            (Ok(a), Ok(b)) => assert_eq!(a, b, "{:?}", s),
            (Err(e), Err(f)) => {
                let kind = match f.kind() {
                    std::num::IntErrorKind::Empty => ParseIntError::Empty,
                    std::num::IntErrorKind::InvalidDigit => ParseIntError::InvalidDigit,
                    std::num::IntErrorKind::PosOverflow => ParseIntError::PosOverflow,
                    other => panic!("unexpected kind {:?}", other),
                };
                assert_eq!(e, kind, "{:?}", s);
            }
            (a, b) => panic!("{:?}: {:?} vs {:?}", s, a, b),
        }
    }
}

#[test]
fn parse_exact_values() {
    assert_eq!(parse_u64("18446744073709551615"), Ok(u64::MAX));
    assert_eq!(parse_u64("18446744073709551616"), Err(ParseIntError::PosOverflow));
    assert_eq!(parse_u64(""), Err(ParseIntError::Empty));
    assert_eq!(parse_u64("+"), Err(ParseIntError::InvalidDigit));
    assert_eq!(parse_u64("+12"), Ok(12));
}

#[test]
fn round_trip_of_ids() {
    for n in [0u64, 1, 9, 10, 1234567890, u64::MAX - 1, u64::MAX] {
        assert_eq!(parse_u64(&u64_to_decimal(n)), Ok(n));
    }
}
