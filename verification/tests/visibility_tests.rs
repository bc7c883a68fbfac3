use visibility::contract;
use visibility::other_module;
use visibility::Context;
use visibility::Initialize;

#[test]
fn initialize_returns_ok() {
    let r = contract::initialize(Context { accounts: Initialize {} });
    assert!(r.is_ok());
}

#[test]
fn public_function_returns_ok() {
    let r = contract::public_function(Context { accounts: Initialize {} });
    assert!(r.is_ok());
}

#[test]
fn both_entry_points_succeed_for_any_caller() {
    let first = contract::initialize(Context { accounts: Initialize {} });
    let second = contract::public_function(Context { accounts: Initialize {} });
    assert_eq!(first, Ok(()));
    assert_eq!(second, Ok(()));
}

#[test]
fn public_helper_is_callable_from_an_external_scope() {
    contract::internal::internal_function();
}

#[test]
fn sibling_module_can_call_the_public_helper() {
    other_module::function();
}
