use token_translator::error::EngineError;
use token_translator::registry::Registry;

fn bv(s: &str) -> Vec<u8> {
    s.as_bytes().to_vec()
}

#[test]
fn empty_registry_has_no_binding() {
    let reg = Registry::new();
    assert!(!reg.contains(&bv("sei1token")));
    assert_eq!(reg.lookup(&bv("sei1token")), None);
}

#[test]
fn bind_then_lookup() {
    let mut reg = Registry::new();
    let fresh = reg.bind_if_absent(&bv("sei1token"), &bv("factory/e/abc"));
    assert!(fresh);
    assert!(reg.contains(&bv("sei1token")));
    assert_eq!(reg.lookup(&bv("sei1token")), Some(bv("factory/e/abc")));
}

#[test]
fn second_bind_is_not_fresh_and_keeps_first_denom() {
    let mut reg = Registry::new();
    assert!(reg.bind_if_absent(&bv("sei1token"), &bv("factory/e/abc")));
    let fresh = reg.bind_if_absent(&bv("sei1token"), &bv("factory/e/other"));
    assert!(!fresh);
    assert_eq!(reg.lookup(&bv("sei1token")), Some(bv("factory/e/abc")));
}

#[test]
fn validate_binding_accepts_exact_match() {
    let mut reg = Registry::new();
    reg.bind_if_absent(&bv("sei1token"), &bv("factory/e/abc"));
    assert_eq!(reg.validate_binding(&bv("sei1token"), &bv("factory/e/abc")), Ok(()));
}

#[test]
fn validate_binding_rejects_missing() {
    let reg = Registry::new();
    assert_eq!(
        reg.validate_binding(&bv("sei1token"), &bv("factory/e/abc")),
        Err(EngineError::BindingMissing)
    );
}

#[test]
fn validate_binding_rejects_mismatch() {
    let mut reg = Registry::new();
    reg.bind_if_absent(&bv("sei1token"), &bv("factory/e/abc"));
    assert_eq!(
        reg.validate_binding(&bv("sei1token"), &bv("factory/e/forged")),
        Err(EngineError::BindingMismatch)
    );
}

#[test]
fn bindings_are_independent() {
    let mut reg = Registry::new();
    assert!(reg.bind_if_absent(&bv("sei1alpha"), &bv("factory/e/a")));
    assert!(reg.bind_if_absent(&bv("sei1beta"), &bv("factory/e/b")));
    assert_eq!(reg.lookup(&bv("sei1alpha")), Some(bv("factory/e/a")));
    assert_eq!(reg.lookup(&bv("sei1beta")), Some(bv("factory/e/b")));
}
