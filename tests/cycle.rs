use plcnext::cycle::{error_text_bytes, exchange_result, wait_limit, MAX_ERROR_LENGTH};
use plcnext::error::{ErrorKind, PlcnextError};

#[test]
fn zero_timeout_waits_without_limit() {
    assert_eq!(wait_limit(0), None);
    assert_eq!(wait_limit(250), Some(250));
}

#[test]
fn failed_exchange_carries_last_error() {
    assert!(exchange_result(true, String::from("ignored")).is_ok());
    let e = exchange_result(false, String::from("Bus not running")).unwrap_err();
    assert_eq!(e.kind, ErrorKind::Transfer);
    assert_eq!(e.details, "Bus not running");
}

#[test]
fn last_error_text_stops_at_zero() {
    let mut buffer = [0u8; MAX_ERROR_LENGTH];
    buffer[..5].copy_from_slice(b"oops!");
    assert_eq!(error_text_bytes(&buffer), b"oops!".to_vec());
    let empty = [0u8; MAX_ERROR_LENGTH];
    assert!(error_text_bytes(&empty).is_empty());
    let full = [b'x'; 4];
    assert_eq!(error_text_bytes(&full), b"xxxx".to_vec());
}

#[test]
fn plcnext_error_new() {
    let e = PlcnextError::new("failure");
    assert_eq!(e.kind, ErrorKind::Other);
    assert_eq!(e.details, "failure");
    assert_eq!(e.description(), "failure");
}
