use vstd::prelude::*;
use vstd::utf8::{
    decode_utf8, encode_utf8, encode_utf8_decode_utf8, encode_utf8_valid_utf8, valid_utf8,
};

use crate::error::{ConversionFailure, Krb5Error};

verus! {

/// Position of the first NUL byte of `b`, or its length when it holds none.
pub open spec fn nul_index(b: Seq<u8>) -> int
    decreases b.len(),
{
    if b.len() == 0 {
        0
    } else if b[0] == 0 {
        0
    } else {
        1 + nul_index(b.drop_first())
    }
}

/// The bytes of a native string: those before its terminator, or all of them when none is present.
pub open spec fn c_text(b: Seq<u8>) -> Seq<u8> {
    b.subrange(0, nul_index(b))
}

/// What reading a native string yields: null is an error, and the bytes before
/// the terminator must be UTF-8.
pub open spec fn c_string_text(raw: Option<Seq<u8>>) -> Result<Seq<char>, Krb5Error> {
    match raw {
        None => Err(Krb5Error::NullPointerDereference),
        Some(b) => if valid_utf8(c_text(b)) {
            Ok(decode_utf8(c_text(b)))
        } else {
            Err(Krb5Error::StringConversion { detail: ConversionFailure::InvalidUtf8 })
        },
    }
}

/// Host text whose UTF-8 form holds a NUL byte, and so has no native form.
pub open spec fn holds_nul(s: Seq<char>) -> bool {
    encode_utf8(s).contains(0)
}

/// The native form of host text: its UTF-8 bytes followed by a terminator.
pub open spec fn c_string_bytes(s: Seq<char>) -> Seq<u8> {
    encode_utf8(s).push(0)
}

/// The bytes behind an optional native buffer, `None` standing for null.
pub open spec fn slice_view(raw: Option<&[u8]>) -> Option<Seq<u8>> {
    match raw {
        Some(b) => Some(b@),
        None => None,
    }
}

/// A text result, with the text as characters.
pub open spec fn text_view(r: Result<String, Krb5Error>) -> Result<Seq<char>, Krb5Error> {
    match r {
        Ok(s) => Ok(s@),
        Err(e) => Err(e),
    }
}

/// The first NUL sits at `i` when no earlier byte is NUL and `i` ends the bytes or holds a NUL.
pub proof fn lemma_nul_index(b: Seq<u8>, i: int)
    requires
        0 <= i <= b.len(),
        forall|j: int| 0 <= j < i ==> b[j] != 0,
        i == b.len() || b[i] == 0,
    ensures
        nul_index(b) == i,
        0 <= nul_index(b) <= b.len(),
    decreases i,
{
    if i > 0 {
        let rest = b.drop_first();
        assert forall|j: int| 0 <= j < i - 1 implies rest[j] != 0 by {
            assert(rest[j] == b[j + 1]);
        }
        if i < b.len() {
            assert(rest[i - 1] == b[i]);
        }
        lemma_nul_index(rest, i - 1);
    }
}

/// Text without a NUL survives the trip to native form and back unchanged:
/// reading the native string that `string_to_c_string` produces gives the
/// original text.
pub proof fn lemma_native_text_round_trip(s: Seq<char>)
    requires
        !holds_nul(s),
    ensures
        c_string_text(Some(c_string_bytes(s))) == Ok::<Seq<char>, Krb5Error>(s),
{
    let b = encode_utf8(s);
    let native = c_string_bytes(s);
    assert forall|j: int| 0 <= j < b.len() implies native[j] != 0 by {
        assert(native[j] == b[j]);
        if b[j] == 0 {
            assert(b.contains(0));
        }
    }
    lemma_nul_index(native, b.len() as int);
    assert(c_text(native) =~= b);
    encode_utf8_valid_utf8(s);
    encode_utf8_decode_utf8(s);
}

/// Relies on `String::from_utf8`: it accepts exactly the valid UTF-8 byte
/// sequences and keeps the characters they encode.
#[verifier::external_body]
fn utf8_to_string(bytes: Vec<u8>) -> (r: Option<String>)
    ensures
        (r is Some) <==> valid_utf8(bytes@),
        (r matches Some(s) ==> s@ == decode_utf8(bytes@)),
{
    String::from_utf8(bytes).ok()
}

/// Converts host text to a NUL-terminated native string, refusing text that
/// holds a NUL of its own.
pub fn string_to_c_string(string: &str) -> (r: Result<Vec<u8>, Krb5Error>)
    ensures
        (r is Err) <==> holds_nul(string@),
        (r matches Ok(v) ==> v@ == c_string_bytes(string@)),
        (r matches Err(e) ==> e == (Krb5Error::StringConversion {
            detail: ConversionFailure::EmbeddedNul,
        })),
{
    let bytes = string.as_bytes();
    let mut out: Vec<u8> = Vec::new();
    let mut i: usize = 0;
    while i < bytes.len()
        invariant
            bytes@ == encode_utf8(string@),
            0 <= i <= bytes.len(),
            out@ == bytes@.subrange(0, i as int),
            forall|j: int| 0 <= j < i ==> bytes@[j] != 0,
        decreases bytes.len() - i,
    {
        if bytes[i] == 0 {
            assert(bytes@[i as int] == 0);
            return Err(Krb5Error::StringConversion { detail: ConversionFailure::EmbeddedNul });
        }
        out.push(bytes[i]);
        i = i + 1;
    }
    assert(out@ == bytes@);
    assert(!bytes@.contains(0));
    out.push(0);
    Ok(out)
}

/// Reads a native string: `None` stands for a null pointer, and the bytes are
/// taken up to the first NUL (all of them when there is none).
pub fn c_string_to_string(raw: Option<&[u8]>) -> (r: Result<String, Krb5Error>)
    ensures
        text_view(r) == c_string_text(slice_view(raw)),
{
    match raw {
        None => Err(Krb5Error::NullPointerDereference),
        Some(b) => {
            let mut text: Vec<u8> = Vec::new();
            let mut i: usize = 0;
            while i < b.len() && b[i] != 0
                invariant
                    0 <= i <= b.len(),
                    text@ == b@.subrange(0, i as int),
                    forall|j: int| 0 <= j < i ==> b@[j] != 0,
                decreases b.len() - i,
            {
                text.push(b[i]);
                i = i + 1;
            }
            proof {
                lemma_nul_index(b@, i as int);
            }
            match utf8_to_string(text) {
                Some(s) => Ok(s),
                None => Err(Krb5Error::StringConversion { detail: ConversionFailure::InvalidUtf8 }),
            }
        },
    }
}

} // verus!
