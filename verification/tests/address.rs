use noosphere::address::{socket_addr_text, socket_addr_to_url};
use noosphere::text::decimal_text;

#[test]
fn numbers_are_written_in_decimal() {
    assert_eq!(decimal_text(0), "0");
    assert_eq!(decimal_text(9), "9");
    assert_eq!(decimal_text(10), "10");
    assert_eq!(decimal_text(65535), "65535");
    assert_eq!(decimal_text(1234567890), "1234567890");
    assert_eq!(decimal_text(u64::MAX), "18446744073709551615");
}

#[test]
fn socket_address_is_written_as_http_url() {
    assert_eq!(socket_addr_text("127.0.0.1", 6667), "http://127.0.0.1:6667");
    assert_eq!(socket_addr_text("::1", 0), "http://::1:0");
}

#[test]
fn socket_address_becomes_a_url() {
    assert_eq!(
        socket_addr_to_url("127.0.0.1", 6667),
        Ok("http://127.0.0.1:6667/".to_string())
    );
    assert_eq!(socket_addr_to_url("10.0.0.1", 80), Ok("http://10.0.0.1/".to_string()));
}

#[test]
fn address_without_brackets_makes_no_url() {
    let error = url::Url::parse("http://::1:6667").unwrap_err();
    assert_eq!(socket_addr_to_url("::1", 6667), Err(error.to_string()));
}
