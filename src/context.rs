use vstd::prelude::*;
use vstd::utf8::encode_utf8;

use crate::error::{ConversionFailure, Krb5Error};
use crate::status::{krb5_error_code_escape_hatch, handle_from_status, reported_for, translated};
use crate::strconv::{holds_nul, c_string_bytes, c_string_text, c_string_to_string, slice_view};

verus! {

/// The status code with which the library says that no default realm is configured.
pub const KRB5_CONFIG_NODEFREALM: i32 = -1765328160;

/// The library's boolean "false".
pub const C_FALSE: u32 = 0;

/// The library's boolean "true".
pub const C_TRUE: u32 = 1;

/// The most components a principal can be built from: the native constructor
/// is variadic and is reached with a fixed set of arities.
pub const MAX_PRINCIPAL_COMPONENTS: usize = 4;

/// Whether the library was built to be used from several threads at once.
#[derive(Debug, Clone, Copy, PartialEq, Eq, Structural)]
pub enum ThreadSafety {
    Enabled,
    Disabled,
}

/// Reads the library's thread-safety capability flag (a native boolean).
pub fn thread_safety(flag: u32) -> (r: ThreadSafety)
    ensures
        (r == ThreadSafety::Enabled) <==> flag != C_FALSE,
{
    if flag != C_FALSE {
        ThreadSafety::Enabled
    } else {
        ThreadSafety::Disabled
    }
}

/// A default-realm result, with the realm as characters.
pub open spec fn realm_view(r: Result<Option<String>, Krb5Error>) -> Result<
    Option<Seq<char>>,
    Krb5Error,
> {
    match r {
        Ok(Some(s)) => Ok(Some(s@)),
        Ok(None) => Ok(None),
        Err(e) => Err(e),
    }
}

/// What the default-realm query yields for a status code and the realm
/// buffer it filled in, when the code is not a failure to translate.
pub open spec fn default_realm_of(code: i32, realm: Option<Seq<u8>>) -> Result<
    Option<Seq<char>>,
    Krb5Error,
> {
    if code == KRB5_CONFIG_NODEFREALM {
        Ok(None)
    } else {
        match c_string_text(realm) {
            Ok(t) => Ok(Some(t)),
            Err(e) => Err(e),
        }
    }
}

/// The default realm from the native query's status and realm buffer
/// (`None` for null): "no default realm configured" is the empty result,
/// any other failing code is a library error.
pub fn default_realm_from_status<M: FnOnce(i32) -> Option<Vec<u8>>>(
    code: i32,
    realm: Option<&[u8]>,
    fetch_message: M,
) -> (r: Result<Option<String>, Krb5Error>)
    requires
        code != 0 && code != KRB5_CONFIG_NODEFREALM ==> fetch_message.requires((code,)),
    ensures
        code != 0 && code != KRB5_CONFIG_NODEFREALM ==> (r matches Err(e) && reported_for(
            fetch_message,
            code,
            e,
        )),
        code == 0 || code == KRB5_CONFIG_NODEFREALM ==> realm_view(r) == default_realm_of(
            code,
            slice_view(realm),
        ),
{
    if code == KRB5_CONFIG_NODEFREALM {
        return Ok(None);
    }
    match krb5_error_code_escape_hatch(code, fetch_message) {
        Err(e) => Err(e),
        Ok(()) => match c_string_to_string(realm) {
            Ok(s) => Ok(Some(s)),
            Err(e) => Err(e),
        },
    }
}

/// The arguments handed to the native principal constructor.
pub struct PrincipalRequest {
    /// The realm, NUL-terminated.
    pub realm: Vec<u8>,
    /// The realm's length in bytes, terminator excluded.
    pub realm_len: u32,
    /// The components, each NUL-terminated.
    pub components: Vec<Vec<u8>>,
}

/// Some text among the realm and the components cannot become a native string.
pub open spec fn any_nul(realm: Seq<char>, args: Seq<String>) -> bool {
    holds_nul(realm) || exists|i: int| 0 <= i < args.len() && #[trigger] holds_nul(args[i]@)
}

/// `req` carries exactly the native forms of `realm` and `args`.
pub open spec fn request_of(req: PrincipalRequest, realm: Seq<char>, args: Seq<String>) -> bool {
    &&& req.realm@ == c_string_bytes(realm)
    &&& req.realm_len == encode_utf8(realm).len()
    &&& req.components@.len() == args.len()
    &&& forall|i: int|
        0 <= i < args.len() ==> (#[trigger] req.components@[i])@ == c_string_bytes(args[i]@)
}

/// Prepares the native constructor's arguments, refusing text with an
/// embedded NUL and more components than the constructor supports.
pub fn principal_request(realm: &str, args: &[String]) -> (r: Result<PrincipalRequest, Krb5Error>)
    requires
        encode_utf8(realm@).len() <= u32::MAX,
    ensures
        (r is Ok) <==> !any_nul(realm@, args@) && args@.len() <= MAX_PRINCIPAL_COMPONENTS,
        any_nul(realm@, args@) ==> r == Err::<PrincipalRequest, Krb5Error>(
            Krb5Error::StringConversion { detail: ConversionFailure::EmbeddedNul },
        ),
        !any_nul(realm@, args@) && args@.len() > MAX_PRINCIPAL_COMPONENTS ==> r == Err::<
            PrincipalRequest,
            Krb5Error,
        >(Krb5Error::MaxVarArgsExceeded),
        (r matches Ok(req) ==> request_of(req, realm@, args@)),
{
    let crealm = match crate::strconv::string_to_c_string(realm) {
        Ok(v) => v,
        Err(e) => return Err(e),
    };
    let realm_len = realm.as_bytes().len() as u32;
    let mut components: Vec<Vec<u8>> = Vec::new();
    let mut i: usize = 0;
    while i < args.len()
        invariant
            0 <= i <= args@.len(),
            !holds_nul(realm@),
            components@.len() == i,
            forall|j: int| 0 <= j < i ==> !holds_nul(args@[j]@),
            forall|j: int|
                0 <= j < i ==> (#[trigger] components@[j])@ == c_string_bytes(args@[j]@),
        decreases args.len() - i,
    {
        match crate::strconv::string_to_c_string(args[i].as_str()) {
            Ok(v) => components.push(v),
            Err(e) => {
                assert(holds_nul(args@[i as int]@));
                return Err(e);
            },
        }
        i = i + 1;
    }
    if args.len() > MAX_PRINCIPAL_COMPONENTS {
        return Err(Krb5Error::MaxVarArgsExceeded);
    }
    Ok(PrincipalRequest { realm: crealm, realm_len, components })
}

/// Builds a principal: prepares the arguments, hands them to `build` (the
/// native constructor, returning its status and handle) only when they are
/// acceptable, and translates what it returns.
pub fn build_principal_with<
    H,
    B: FnOnce(PrincipalRequest) -> (i32, Option<H>),
    M: FnOnce(i32) -> Option<Vec<u8>>,
>(realm: &str, args: &[String], build: B, fetch_message: M) -> (r: Result<H, Krb5Error>)
    requires
        encode_utf8(realm@).len() <= u32::MAX,
        forall|req: PrincipalRequest| build.requires((req,)),
        forall|code: i32| fetch_message.requires((code,)),
    ensures
        any_nul(realm@, args@) ==> r == Err::<H, Krb5Error>(
            Krb5Error::StringConversion { detail: ConversionFailure::EmbeddedNul },
        ),
        !any_nul(realm@, args@) && args@.len() > MAX_PRINCIPAL_COMPONENTS ==> r == Err::<
            H,
            Krb5Error,
        >(Krb5Error::MaxVarArgsExceeded),
        !any_nul(realm@, args@) && args@.len() <= MAX_PRINCIPAL_COMPONENTS ==> exists|
            req: PrincipalRequest,
            out: (i32, Option<H>),
        |
            request_of(req, realm@, args@) && #[trigger] build.ensures((req,), out) && translated(
                fetch_message,
                out.0,
                out.1,
                r,
            ),
{
    match principal_request(realm, args) {
        Err(e) => Err(e),
        Ok(req) => {
            let (code, handle) = build(req);
            handle_from_status(code, handle, fetch_message)
        },
    }
}

} // verus!
