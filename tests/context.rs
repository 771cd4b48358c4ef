use std::cell::Cell;

use libkrb5::{
    build_principal_with, default_realm_from_status, principal_request, thread_safety,
    ConversionFailure, Krb5Error, PrincipalRequest, ThreadSafety, C_FALSE, C_TRUE,
    KRB5_CONFIG_NODEFREALM, MAX_PRINCIPAL_COMPONENTS,
};

fn no_message(_code: i32) -> Option<Vec<u8>> {
    Some(b"Configuration file does not specify default realm\0".to_vec())
}

fn components(n: usize) -> Vec<String> {
    (0..n).map(|i| format!("part{}", i)).collect()
}

#[test]
fn thread_safety_flag_enabled() {
    assert_eq!(thread_safety(C_TRUE), ThreadSafety::Enabled);
}

#[test]
fn thread_safety_flag_disabled() {
    assert_eq!(thread_safety(C_FALSE), ThreadSafety::Disabled);
}

#[test]
fn no_default_realm_is_empty_result() {
    let fetched = Cell::new(false);
    let r = default_realm_from_status(KRB5_CONFIG_NODEFREALM, None, |c: i32| {
        fetched.set(true);
        no_message(c)
    });
    assert_eq!(r, Ok(None));
    assert!(!fetched.get());
}

#[test]
fn configured_default_realm_is_returned() {
    let raw = b"EXAMPLE.COM\0";
    let r = default_realm_from_status(0, Some(&raw[..]), no_message);
    assert_eq!(r, Ok(Some(String::from("EXAMPLE.COM"))));
}

#[test]
fn default_realm_failure_is_error() {
    let r = default_realm_from_status(-1765328245, None, |_c: i32| {
        Some(b"Cannot open configuration file\0".to_vec())
    });
    assert_eq!(
        r,
        Err(Krb5Error::LibraryError { message: String::from("Cannot open configuration file") })
    );
}

#[test]
fn default_realm_null_after_success() {
    let r = default_realm_from_status(0, None, no_message);
    assert_eq!(r, Err(Krb5Error::NullPointerDereference));
}

#[test]
fn request_without_components() {
    let req: PrincipalRequest = principal_request("EXAMPLE.COM", &[]).unwrap();
    assert_eq!(req.realm, b"EXAMPLE.COM\0".to_vec());
    assert_eq!(req.realm_len, 11);
    assert!(req.components.is_empty());
}

#[test]
fn request_with_one_to_four_components() {
    for n in 1..=4 {
        let args = components(n);
        let req = principal_request("EXAMPLE.COM", &args).unwrap();
        assert_eq!(req.components.len(), n);
        for (i, c) in req.components.iter().enumerate() {
            assert_eq!(c, &format!("part{}\0", i).into_bytes());
        }
    }
}

#[test]
fn request_with_five_components_exceeds_ceiling() {
    assert_eq!(MAX_PRINCIPAL_COMPONENTS, 4);
    let r = principal_request("EXAMPLE.COM", &components(5));
    assert!(matches!(r, Err(Krb5Error::MaxVarArgsExceeded)));
}

#[test]
fn request_realm_length_counts_bytes() {
    let req = principal_request("RÉALM", &[]).unwrap();
    assert_eq!(req.realm_len, 6);
}

#[test]
fn request_refuses_nul_in_realm() {
    let r = principal_request("EXAMPLE\0COM", &components(1));
    assert!(matches!(
        r,
        Err(Krb5Error::StringConversion { detail: ConversionFailure::EmbeddedNul })
    ));
}

#[test]
fn request_refuses_nul_in_component_before_counting() {
    let mut args = components(5);
    args[2] = String::from("bad\0part");
    let r = principal_request("EXAMPLE.COM", &args);
    assert!(matches!(
        r,
        Err(Krb5Error::StringConversion { detail: ConversionFailure::EmbeddedNul })
    ));
}

#[test]
fn build_principal_hands_request_to_constructor() {
    let args = vec![String::from("host"), String::from("kdc.example.com")];
    let r = build_principal_with(
        "EXAMPLE.COM",
        &args,
        |req: PrincipalRequest| {
            assert_eq!(req.realm_len, 11);
            assert_eq!(req.components.len(), 2);
            assert_eq!(req.components[0], b"host\0".to_vec());
            (0, Some(42u64))
        },
        no_message,
    );
    assert_eq!(r, Ok(42u64));
}

#[test]
fn build_principal_null_result() {
    let r = build_principal_with::<u64, _, _>("EXAMPLE.COM", &[], |_req| (0, None), no_message);
    assert_eq!(r, Err(Krb5Error::NullPointerDereference));
}

#[test]
fn build_principal_too_many_skips_constructor() {
    let called = Cell::new(false);
    let r = build_principal_with::<u64, _, _>(
        "EXAMPLE.COM",
        &components(5),
        |_req| {
            called.set(true);
            (0, Some(1))
        },
        no_message,
    );
    assert_eq!(r, Err(Krb5Error::MaxVarArgsExceeded));
    assert!(!called.get());
}

#[test]
fn build_principal_failure_translated() {
    let r = build_principal_with::<u64, _, _>(
        "EXAMPLE.COM",
        &components(1),
        |_req| (-1765328250, None),
        |_c: i32| Some(b"Malformed representation of principal\0".to_vec()),
    );
    assert_eq!(
        r,
        Err(Krb5Error::LibraryError {
            message: String::from("Malformed representation of principal")
        })
    );
}
