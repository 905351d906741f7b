use database_common_lib::numbers::{parse_u16, u16_to_decimal, IntErrorKind};

fn std_kind(text: &str) -> Result<u16, IntErrorKind> {
    match text.parse::<u16>() {
        Ok(n) => Ok(n),
        Err(e) => match e.kind() {
            std::num::IntErrorKind::Empty => Err(IntErrorKind::Empty),
            std::num::IntErrorKind::InvalidDigit => Err(IntErrorKind::InvalidDigit),
            std::num::IntErrorKind::PosOverflow => Err(IntErrorKind::PosOverflow),
            other => panic!("unexpected kind {:?}", other),
        },
    }
}

#[test]
fn decimal_of_edge_values() {
    assert_eq!(u16_to_decimal(0), "0");
    assert_eq!(u16_to_decimal(7), "7");
    assert_eq!(u16_to_decimal(10), "10");
    assert_eq!(u16_to_decimal(3306), "3306");
    assert_eq!(u16_to_decimal(65535), "65535");
}

#[test]
fn decimal_matches_to_string_everywhere() {
    for n in 0..=u16::MAX {
        assert_eq!(u16_to_decimal(n), n.to_string());
    }
}

#[test]
fn parse_matches_std_on_chosen_texts() {
    let texts = [
        "", "+", "-", "0", "+0", "-0", "80", "+80", "-80", "0080", "3306", "65535", "65536",
        "99999", "99999x", "6553x", "70000x", " 80", "80 ", "8 0", "x", "++1", "+-1", "١٢",
        "4294967296", "000000000000065535",
    ];
    for t in texts {
        assert_eq!(parse_u16(t), std_kind(t), "text {:?}", t);
    }
}

#[test]
fn parse_roundtrips_every_decimal() {
    for n in 0..=u16::MAX {
        assert_eq!(parse_u16(&u16_to_decimal(n)), Ok(n));
    }
}

#[test]
fn parse_error_kinds() {
    assert_eq!(parse_u16(""), Err(IntErrorKind::Empty));
    assert_eq!(parse_u16("abc"), Err(IntErrorKind::InvalidDigit));
    assert_eq!(parse_u16("65536"), Err(IntErrorKind::PosOverflow));
}
