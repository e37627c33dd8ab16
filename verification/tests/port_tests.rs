use flakeup::port::{parse_port, PortParseError};

#[test]
fn parse_port_values() {
    assert_eq!(parse_port("1080"), Ok(1080));
    assert_eq!(parse_port("+8080"), Ok(8080));
    assert_eq!(parse_port("0"), Ok(0));
    assert_eq!(parse_port("007"), Ok(7));
    assert_eq!(parse_port("18446744073709551615"), Ok(u64::MAX));
}

#[test]
fn parse_port_errors() {
    assert_eq!(parse_port(""), Err(PortParseError::Empty));
    assert_eq!(parse_port("+"), Err(PortParseError::InvalidDigit));
    assert_eq!(parse_port("-"), Err(PortParseError::InvalidDigit));
    assert_eq!(parse_port("-1"), Err(PortParseError::InvalidDigit));
    assert_eq!(parse_port(" 1"), Err(PortParseError::InvalidDigit));
    assert_eq!(parse_port("12a"), Err(PortParseError::InvalidDigit));
    assert_eq!(parse_port("18446744073709551616"), Err(PortParseError::PosOverflow));
    assert_eq!(parse_port("99999999999999999999x"), Err(PortParseError::PosOverflow));
}

fn kind(s: &str) -> Result<u64, PortParseError> {
    match s.parse::<u64>() {
        Ok(v) => Ok(v),
        Err(e) => Err(match e.kind() {
            std::num::IntErrorKind::Empty => PortParseError::Empty,
            std::num::IntErrorKind::PosOverflow => PortParseError::PosOverflow,
            _ => PortParseError::InvalidDigit,
        }),
    }
}

#[test]
fn parse_port_agrees_with_std() {
    let inputs = [
        "", "+", "-", "+0", "1", "65535", "+-1", "1+", "٣", "1_000", "0x10", "184467440737095516150",
        "18446744073709551615", "18446744073709551615a", "a18446744073709551616",
    ];
    for s in inputs.iter() {
        assert_eq!(parse_port(s), kind(s), "input {:?}", s);
    }
}

#[test]
fn law_decimal_reads_back_on_values() {
    for n in [0u64, 9, 10, 1080, 65535, u64::MAX] {
        assert_eq!(parse_port(&n.to_string()), Ok(n));
        assert_eq!(parse_port(&format!("+{}", n)), Ok(n));
    }
}
