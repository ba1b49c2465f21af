use recipe_relay::config::parse_port;

#[test]
fn ordinary_ports_parse() {
    assert_eq!(parse_port("8080"), Some(8080));
    assert_eq!(parse_port("0"), Some(0));
    assert_eq!(parse_port("65535"), Some(65535));
    assert_eq!(parse_port("+80"), Some(80));
    assert_eq!(parse_port("070"), Some(70));
}

#[test]
fn non_numeric_ports_are_rejected() {
    assert_eq!(parse_port(""), None);
    assert_eq!(parse_port("+"), None);
    assert_eq!(parse_port("abc"), None);
    assert_eq!(parse_port("80a"), None);
    assert_eq!(parse_port("8 0"), None);
    assert_eq!(parse_port("-1"), None);
    assert_eq!(parse_port("8.5"), None);
}

#[test]
fn out_of_range_ports_are_rejected() {
    assert_eq!(parse_port("65536"), None);
    assert_eq!(parse_port("70000"), None);
    assert_eq!(parse_port("999999999999999999999"), None);
}
