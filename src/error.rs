use vstd::prelude::*;
use vstd::string::StringExecFns;

verus! {

/// Why text could not cross the native string boundary.
#[derive(Debug, Clone, Copy, PartialEq, Eq, Structural)]
pub enum ConversionFailure {
    /// Host text held a NUL byte, which would end a native string early.
    EmbeddedNul,
    /// Native bytes were not valid UTF-8.
    InvalidUtf8,
}

/// Every failure the wrapper layer reports.
#[derive(Debug, PartialEq, Eq)]
pub enum Krb5Error {
    /// The library returned a non-zero status code; `message` is its own rendering of that code.
    LibraryError { message: String },
    /// A call succeeded but handed back a null pointer where a value was expected.
    NullPointerDereference,
    /// Text could not be converted between host and native form.
    StringConversion { detail: ConversionFailure },
    /// More principal components were given than the bounded constructor accepts.
    MaxVarArgsExceeded,
}

/// The human-readable rendering of an error.
pub open spec fn error_text(e: Krb5Error) -> Seq<char> {
    match e {
        Krb5Error::LibraryError { message } => "Library error: "@ + message@,
        Krb5Error::NullPointerDereference => "NULL Pointer dereference error"@,
        Krb5Error::StringConversion { detail: ConversionFailure::EmbeddedNul } =>
            "String conversion / UTF8 error"@,
        Krb5Error::StringConversion { detail: ConversionFailure::InvalidUtf8 } =>
            "String conversion / UTF8 error: C string contained non-utf8 bytes"@,
        Krb5Error::MaxVarArgsExceeded =>
            "Maximum number of supported arguments for a variadic function exceeded."@,
    }
}

impl Krb5Error {
    /// Renders the error as text.
    pub fn to_string(&self) -> (r: String)
        ensures
            r@ == error_text(*self),
    {
        match self {
            Krb5Error::LibraryError { message } => {
                String::from_str("Library error: ").concat(message.as_str())
            },
            Krb5Error::NullPointerDereference => String::from_str("NULL Pointer dereference error"),
            Krb5Error::StringConversion { detail: ConversionFailure::EmbeddedNul } => {
                String::from_str("String conversion / UTF8 error")
            },
            Krb5Error::StringConversion { detail: ConversionFailure::InvalidUtf8 } => {
                String::from_str("String conversion / UTF8 error: C string contained non-utf8 bytes")
            },
            Krb5Error::MaxVarArgsExceeded => {
                String::from_str(
                    "Maximum number of supported arguments for a variadic function exceeded.",
                )
            },
        }
    }
}

} // verus!
