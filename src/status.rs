use vstd::prelude::*;

use crate::error::{error_text, Krb5Error};
use crate::strconv::{c_string_text, c_string_to_string, slice_view};

verus! {

/// The bytes of a fetched message buffer, `None` standing for null.
pub open spec fn message_view(m: Option<Vec<u8>>) -> Option<Seq<u8>> {
    match m {
        Some(v) => Some(v@),
        None => None,
    }
}

/// The text of a native error message; a message that cannot be read is
/// replaced by the rendering of the conversion error.
pub open spec fn message_text(raw: Option<Seq<u8>>) -> Seq<char> {
    match c_string_text(raw) {
        Ok(t) => t,
        Err(e) => error_text(e),
    }
}

/// `e` is a library error whose message is the one read from `raw`.
pub open spec fn is_library_error(e: Krb5Error, raw: Option<Seq<u8>>) -> bool {
    &&& e is LibraryError
    &&& e->message@ == message_text(raw)
}

/// `e` is what is reported for the non-zero status `code`, with the message
/// that `fetch_message` produced for it.
pub open spec fn reported_for<M: FnOnce(i32) -> Option<Vec<u8>>>(
    fetch_message: M,
    code: i32,
    e: Krb5Error,
) -> bool {
    exists|m: Option<Vec<u8>>|
        #[trigger] fetch_message.ensures((code,), m) && is_library_error(e, message_view(m))
}

/// A handle handed back by a successful call; null is an error there.
pub open spec fn handle_result<H>(handle: Option<H>) -> Result<H, Krb5Error> {
    match handle {
        Some(h) => Ok(h),
        None => Err(Krb5Error::NullPointerDereference),
    }
}

/// `r` is the translation of a call that returned `code` and `handle`.
pub open spec fn translated<H, M: FnOnce(i32) -> Option<Vec<u8>>>(
    fetch_message: M,
    code: i32,
    handle: Option<H>,
    r: Result<H, Krb5Error>,
) -> bool {
    &&& code != 0 ==> (r matches Err(e) && reported_for(fetch_message, code, e))
    &&& code == 0 ==> r == handle_result(handle)
}

/// Turns the bytes of a native error message (`None` for null) into owned text.
pub fn native_message_text(raw: Option<&[u8]>) -> (r: String)
    ensures
        r@ == message_text(slice_view(raw)),
{
    match c_string_to_string(raw) {
        Ok(s) => s,
        Err(e) => e.to_string(),
    }
}

/// Translates a status code: zero is success; any other code becomes a
/// library error whose message `fetch_message` obtains from the library.
/// The message is fetched only for a failure.
pub fn krb5_error_code_escape_hatch<M: FnOnce(i32) -> Option<Vec<u8>>>(
    code: i32,
    fetch_message: M,
) -> (r: Result<(), Krb5Error>)
    requires
        code != 0 ==> fetch_message.requires((code,)),
    ensures
        (r is Ok) <==> code == 0,
        (r matches Err(e) ==> reported_for(fetch_message, code, e)),
{
    if code == 0 {
        Ok(())
    } else {
        let m = fetch_message(code);
        let message = match &m {
            Some(v) => native_message_text(Some(v.as_slice())),
            None => native_message_text(None),
        };
        Err(Krb5Error::LibraryError { message })
    }
}

/// The result of a call that hands back a handle: a failing status is
/// translated, and a null handle after success is an error.
pub fn handle_from_status<H, M: FnOnce(i32) -> Option<Vec<u8>>>(
    code: i32,
    handle: Option<H>,
    fetch_message: M,
) -> (r: Result<H, Krb5Error>)
    requires
        code != 0 ==> fetch_message.requires((code,)),
    ensures
        translated(fetch_message, code, handle, r),
{
    match krb5_error_code_escape_hatch(code, fetch_message) {
        Err(e) => Err(e),
        Ok(()) => match handle {
            Some(h) => Ok(h),
            None => Err(Krb5Error::NullPointerDereference),
        },
    }
}

/// The result of a call whose handle may be legitimately absent: a failing
/// status is translated, and a null handle after success means "none".
pub fn optional_handle_from_status<H, M: FnOnce(i32) -> Option<Vec<u8>>>(
    code: i32,
    handle: Option<H>,
    fetch_message: M,
) -> (r: Result<Option<H>, Krb5Error>)
    requires
        code != 0 ==> fetch_message.requires((code,)),
    ensures
        code != 0 ==> (r matches Err(e) && reported_for(fetch_message, code, e)),
        code == 0 ==> r == Ok::<Option<H>, Krb5Error>(handle),
{
    match krb5_error_code_escape_hatch(code, fetch_message) {
        Err(e) => Err(e),
        Ok(()) => Ok(handle),
    }
}

} // verus!
