//! The verified core of a safe wrapper over the Kerberos 5 library: the
//! conversion of text across the native string boundary, the translation of
//! native status codes into structured errors, the decisions each native
//! entry point's results call for, and the collection cursor's state machine.
//! The native calls themselves are made by the caller and handed in, as
//! values or as closures.

pub mod ccache;
pub mod cccol;
pub mod context;
pub mod error;
pub mod status;
pub mod strconv;

pub use ccache::open_named;
pub use cccol::{CollectionCursor, CursorPhase};
pub use context::{
    build_principal_with, default_realm_from_status, principal_request, thread_safety,
    PrincipalRequest, ThreadSafety, C_FALSE, C_TRUE, KRB5_CONFIG_NODEFREALM,
    MAX_PRINCIPAL_COMPONENTS,
};
pub use error::{ConversionFailure, Krb5Error};
pub use status::{
    handle_from_status, krb5_error_code_escape_hatch, native_message_text,
    optional_handle_from_status,
};
pub use strconv::{c_string_to_string, string_to_c_string};

