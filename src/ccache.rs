use vstd::prelude::*;

use crate::error::{ConversionFailure, Krb5Error};
use crate::status::{handle_from_status, translated};
use crate::strconv::{c_string_bytes, holds_nul, string_to_c_string};

verus! {

/// Opens a credential cache from a text argument (a type-prefixed cache name,
/// or the backing type of a new unique cache). The text is handed to `open`
/// (the native call, returning its status and handle) in native form, and
/// only when it has one; what `open` returns is translated.
pub fn open_named<
    H,
    O: FnOnce(Vec<u8>) -> (i32, Option<H>),
    M: FnOnce(i32) -> Option<Vec<u8>>,
>(name: &str, open: O, fetch_message: M) -> (r: Result<H, Krb5Error>)
    requires
        forall|native: Vec<u8>| open.requires((native,)),
        forall|code: i32| fetch_message.requires((code,)),
    ensures
        holds_nul(name@) ==> r == Err::<H, Krb5Error>(
            Krb5Error::StringConversion { detail: ConversionFailure::EmbeddedNul },
        ),
        !holds_nul(name@) ==> exists|native: Vec<u8>, out: (i32, Option<H>)|
            native@ == c_string_bytes(name@) && #[trigger] open.ensures((native,), out)
                && translated(fetch_message, out.0, out.1, r),
{
    match string_to_c_string(name) {
        Err(e) => Err(e),
        Ok(native) => {
            let (code, handle) = open(native);
            handle_from_status(code, handle, fetch_message)
        },
    }
}

} // verus!
