use libkrb5::{ConversionFailure, Krb5Error};

#[test]
fn library_error_text() {
    let e = Krb5Error::LibraryError { message: String::from("Cannot contact any KDC") };
    assert_eq!(e.to_string(), "Library error: Cannot contact any KDC");
}

#[test]
fn null_pointer_text() {
    assert_eq!(Krb5Error::NullPointerDereference.to_string(), "NULL Pointer dereference error");
}

#[test]
fn conversion_texts() {
    let nul = Krb5Error::StringConversion { detail: ConversionFailure::EmbeddedNul };
    assert_eq!(nul.to_string(), "String conversion / UTF8 error");
    let utf8 = Krb5Error::StringConversion { detail: ConversionFailure::InvalidUtf8 };
    assert_eq!(
        utf8.to_string(),
        "String conversion / UTF8 error: C string contained non-utf8 bytes"
    );
}

#[test]
fn var_args_text() {
    assert_eq!(
        Krb5Error::MaxVarArgsExceeded.to_string(),
        "Maximum number of supported arguments for a variadic function exceeded."
    );
}
