use std::cell::Cell;

use libkrb5::{open_named, ConversionFailure, Krb5Error};

fn message(_code: i32) -> Option<Vec<u8>> {
    Some(b"Unknown credential cache type\0".to_vec())
}

#[test]
fn resolve_name_with_nul_is_refused() {
    let opened = Cell::new(false);
    let r = open_named::<u64, _, _>(
        "FILE:/tmp/krb5cc\0evil",
        |_n: Vec<u8>| {
            opened.set(true);
            (0, Some(1))
        },
        message,
    );
    assert_eq!(
        r,
        Err(Krb5Error::StringConversion { detail: ConversionFailure::EmbeddedNul })
    );
    assert!(!opened.get());
}

#[test]
fn resolve_name_is_handed_over_terminated() {
    let r = open_named(
        "MEMORY:test",
        |n: Vec<u8>| {
            assert_eq!(n, b"MEMORY:test\0".to_vec());
            (0, Some(9u64))
        },
        message,
    );
    assert_eq!(r, Ok(9u64));
}

#[test]
fn resolve_failure_is_translated() {
    let r = open_named::<u64, _, _>("BOGUS:x", |_n: Vec<u8>| (-1765328244, None), message);
    assert!(matches!(r, Err(Krb5Error::LibraryError { .. })));
}
