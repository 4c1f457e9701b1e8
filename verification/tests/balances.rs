//! Tests of the balances RPC helpers and their error objects.

use std::sync::Arc;

use swanky_node::balances::AccountData;
use swanky_node::balances::Balances;
use swanky_node::balances::Error;
use swanky_node::balances::INTERNAL_ERROR_CODE;
use swanky_node::balances::err;
use swanky_node::balances::internal_err;
use swanky_node::balances::internal_err_with_data;

#[test]
fn error_codes_match_their_categories() {
    assert_eq!(i32::from(Error::RuntimeError), 1);
    assert_eq!(i32::from(Error::DecodeError), 2);
}

#[test]
fn err_carries_code_message_and_hex_data() {
    let e = err(42, "out of range".to_owned(), Some(&vec![0xde, 0xad, 0xbe, 0xef]));
    assert_eq!(e.code, 42);
    assert_eq!(e.message, "out of range");
    assert_eq!(e.data, Some("0xdeadbeef".to_owned()));
}

#[test]
fn err_renders_data_exactly_as_the_hex_crate_does() {
    let bytes: Vec<u8> = vec![0, 1, 0x0f, 0xf0, 0xaa];
    let e = err(1, "m".to_owned(), Some(&bytes));
    assert_eq!(e.data, Some(format!("0x{}", hex::encode(&bytes))));
}

#[test]
fn internal_err_uses_the_reserved_code() {
    let e = internal_err("cannot access runtime api".to_owned());
    assert_eq!(e.code, INTERNAL_ERROR_CODE);
    assert_eq!(e.code, -32603);
    assert_eq!(e.message, "cannot access runtime api");
    assert_eq!(e.data, None);
}

#[test]
fn internal_err_with_data_keeps_both() {
    let e = internal_err_with_data("boom".to_owned(), &vec![0x01]);
    assert_eq!(e.code, INTERNAL_ERROR_CODE);
    assert_eq!(e.data, Some("0x01".to_owned()));
}

#[test]
fn balances_handle_builds_over_its_collaborators() {
    let client = Arc::new(7u32);
    let pool = Arc::new("pool");
    let _balances = Balances::new(client, pool);
    let account = AccountData { free: 100, reserved: 5, misc_frozen: 0, fee_frozen: 0 };
    assert_eq!(account.free, 100);
}
