use printschema::numeric::{i32_to_string, parse_i32};
use printschema::ticket::{PrintTicket, DEFAULT_PRINT_TICKET_XML};

#[test]
fn integers_print_canonically() {
    assert_eq!(i32_to_string(0), "0");
    assert_eq!(i32_to_string(42), "42");
    assert_eq!(i32_to_string(-5), "-5");
    assert_eq!(i32_to_string(i32::MAX), "2147483647");
    assert_eq!(i32_to_string(i32::MIN), "-2147483648");
}

#[test]
fn integers_parse_like_the_standard_parser() {
    let cases = [
        "0", "42", "-5", "+7", "007", "2147483647", "-2147483648", "2147483648", "-2147483649",
        "", "+", "-", " 1", "1 ", "1a", "99999999999999999999", "0009",
    ];
    for s in cases {
        assert_eq!(parse_i32(s), s.parse::<i32>().ok(), "case {:?}", s);
    }
}

#[test]
fn ticket_bytes_are_kept_verbatim() {
    let ticket = PrintTicket::from_xml(b"<x/>".to_vec());
    assert_eq!(ticket.get_xml(), b"<x/>");
    assert_eq!(ticket.into_xml(), b"<x/>".to_vec());

    let empty = PrintTicket::default();
    assert_eq!(empty.get_xml(), DEFAULT_PRINT_TICKET_XML.as_bytes());
}
