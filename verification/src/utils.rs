//! Paths and names in the engine's string encoding: the bytes of the text,
//! closed by one NUL byte, which therefore cannot occur inside.

use vstd::prelude::*;
use vstd::slice::slice_to_vec;
use vstd::string::StringSliceAdditionalSpecFns;
use crate::bytes::{contains_nul, has_nul};
use crate::error::{path_message, Error};

verus! {

/// Whether a text can be written in the engine's string encoding.
pub open spec fn encodable(text: &str) -> bool {
    !has_nul(text.spec_bytes())
}

/// Decides whether a text can be written in the engine's string encoding.
pub fn is_encodable(text: &str) -> (r: bool)
    ensures
        r == encodable(text),
{
    !contains_nul(text.as_bytes())
}

/// The path in the engine's string encoding, or an error when the path
/// holds a NUL byte.
pub fn to_cpath(path: &str) -> (r: Result<Vec<u8>, Error>)
    ensures
        encodable(path) ==> r is Ok && r->Ok_0@ == path.spec_bytes().push(0u8),
        !encodable(path) ==> r is Err && r->Err_0@ == path_message(),
{
    if contains_nul(path.as_bytes()) {
        Err(Error::path())
    } else {
        let mut encoded = slice_to_vec(path.as_bytes());
        encoded.push(0u8);
        Ok(encoded)
    }
}

/// The names of the column families of the unopened store at `path`, as
/// the engine listed them: an error when the path cannot be encoded, else
/// the engine's failure, with its message verbatim, or its list.
pub fn get_cf_names(path: &str, listed: Result<Vec<String>, String>) -> (r: Result<Vec<String>, Error>)
    ensures
        !encodable(path) ==> r is Err && r->Err_0@ == path_message(),
        encodable(path) ==> match listed {
            Ok(names) => r is Ok && r->Ok_0 == names,
            Err(message) => r is Err && r->Err_0@ == message@,
        },
{
    if !is_encodable(path) {
        return Err(Error::path());
    }
    match listed {
        Ok(names) => Ok(names),
        Err(message) => Err(Error::new(message)),
    }
}

} // verus!
