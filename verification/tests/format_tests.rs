use http_client::address::{Address, select_address};
use http_client::http_client::request_text;

#[test]
fn test_request_text_exact() {
    let host = String::from("example.com");
    let path = String::from("/");
    assert_eq!(
        request_text(&host, &path),
        String::from("GET / HTTP/1.0\r\nHost: example.com\r\n\r\n")
    );
}

#[test]
fn test_request_text_longer_path() {
    let host = String::from("servo.org");
    let path = String::from("/index.html?q=1");
    assert_eq!(
        request_text(&host, &path),
        String::from("GET /index.html?q=1 HTTP/1.0\r\nHost: servo.org\r\n\r\n")
    );
}

#[test]
fn test_select_address_empty() {
    assert_eq!(select_address(&vec![]), None);
}

#[test]
fn test_select_address_first_v4() {
    let addrs = vec![
        Address::V4(1, 2, 3, 4),
        Address::V4(5, 6, 7, 8),
    ];
    assert_eq!(select_address(&addrs), Some(Address::V4(1, 2, 3, 4)));
}

#[test]
fn test_select_address_skips_v6() {
    let addrs = vec![
        Address::V6(1, 2, 3, 4, 5, 6, 7, 8),
        Address::V4(9, 10, 11, 12),
        Address::V4(13, 14, 15, 16),
    ];
    assert_eq!(select_address(&addrs), Some(Address::V4(9, 10, 11, 12)));
}

#[test]
fn test_select_address_no_v4() {
    let addrs = vec![Address::V6(1, 2, 3, 4, 5, 6, 7, 8)];
    assert_eq!(select_address(&addrs), None);
}
