use async_bridge::{register_runtime, terminate_runtime, InitError, RuntimeRegistry};

#[test]
fn registration_succeeds_once_then_errors() {
    let mut registry = RuntimeRegistry::new();
    assert!(!registry.is_registered());
    assert_eq!(register_runtime(&mut registry), Ok(()));
    assert!(registry.is_registered());
    assert_eq!(register_runtime(&mut registry), Err(InitError::new()));
    assert!(registry.is_registered());
}

#[test]
fn registration_after_teardown_still_errors() {
    let mut registry = RuntimeRegistry::new();
    assert_eq!(register_runtime(&mut registry), Ok(()));
    terminate_runtime(&mut registry);
    assert!(!registry.is_registered());
    assert_eq!(register_runtime(&mut registry), Err(InitError::new()));
    assert!(!registry.is_registered());
}

#[test]
fn teardown_of_fresh_registry_is_safe() {
    let mut registry = RuntimeRegistry::new();
    terminate_runtime(&mut registry);
    assert!(!registry.is_registered());
    assert_eq!(register_runtime(&mut registry), Err(InitError::new()));
}

#[test]
fn init_error_message_names_the_rule() {
    let err = InitError::new();
    assert_eq!(err.message(), "async runtime must only be initialized once");
}
