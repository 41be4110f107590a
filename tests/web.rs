use fika_manager::{CurlError, CurlKV};
use std::str::FromStr;

#[test]
fn key_value_splits_at_first_colon() {
    let kv = CurlKV::from_str("Authorization:Bearer a:b").unwrap();
    assert_eq!(kv.key, "Authorization");
    assert_eq!(kv.value, "Bearer a:b");
    let empty = CurlKV::parse(":").unwrap();
    assert_eq!(empty.key, "");
    assert_eq!(empty.value, "");
}

#[test]
fn key_value_without_colon_is_rejected() {
    match CurlKV::parse("no-separator") {
        Err(CurlError::KvFormat(s)) => assert_eq!(s, "no-separator"),
        Ok(_) => panic!("expected an error"),
    }
}
