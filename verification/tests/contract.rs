//! Tests of the contract-side surfaces that run without a chain underneath.

use swanky_node::rmrk::RmrkError;
use swanky_node::rmrk_example::RmrkExample;

#[test]
fn default_works() {
}

#[test]
fn it_works() {
}

#[test]
fn success_status_code_is_accepted() {
    assert!(RmrkError::from_status_code(0).is_ok());
    assert!(swanky_node::rmrk_example::RmrkError::from_status_code(0).is_ok());
}

#[test]
fn example_contract_constructs() {
    let _contract = RmrkExample::new();
}
