//! The error bridge: what the engine reports becomes the caller's error.

use vstd::prelude::*;
use vstd::string::*;
use vstd::utf8::*;

verus! {

/// `core::str::from_utf8`: the bytes are taken as a string exactly when they
/// are well-formed UTF-8, and the string is then made of those same bytes.
/// Nothing of this is proved here.
#[verifier::external_body]
pub(crate) fn str_from_utf8(bytes: &[u8]) -> (r: Option<&str>)
    ensures
        r.is_some() <==> valid_utf8(bytes@),
        r matches Some(s) ==> s.spec_bytes() == bytes@,
{
    match core::str::from_utf8(bytes) {
        Ok(s) => Some(s),
        Err(_) => None,
    }
}

/// Reads bytes as text: the string they encode, if they are well-formed
/// UTF-8.
pub fn text_of(bytes: &[u8]) -> (r: Option<&str>)
    ensures
        r.is_some() <==> valid_utf8(bytes@),
        r matches Some(s) ==> s@ == decode_utf8(bytes@),
{
    let r = str_from_utf8(bytes);
    proof {
        if let Some(s) = r {
            encode_utf8_decode_utf8(s@);
        }
    }
    r
}

/// The message that the engine left behind, as the caller's own string.
/// `message` holds the bytes of the engine's text without the terminating
/// zero.
pub fn error_message(message: &[u8]) -> (r: String)
    requires
        valid_utf8(message@),
    ensures
        r@ == decode_utf8(message@),
{
    match text_of(message) {
        Some(s) => s.to_owned(),
        None => String::new(),
    }
}

/// The outcome of an engine routine that returns nothing but its error slot:
/// it failed exactly when it left a message there.
pub fn status(err: Option<&[u8]>) -> (r: Result<(), String>)
    requires
        err matches Some(m) ==> valid_utf8(m@),
    ensures
        err.is_none() <==> r.is_ok(),
        err matches Some(m) ==> r matches Err(e) && e@ == decode_utf8(m@),
{
    match err {
        None => Ok(()),
        Some(m) => Err(error_message(m)),
    }
}

} // verus!

verus! {

/// What is reported for a path or a name with a zero byte in it.
pub open spec fn path_not_c_string() -> Seq<char> {
    "Failed to convert path to CString when opening rocksdb"@
}

/// What stands in front of the file system's words when the directory of a
/// database cannot be made.
pub open spec fn directory_failed() -> Seq<char> {
    "Failed to create rocksdb directory: "@
}

/// What is reported when the names of the column families and their options
/// are not equally many.
pub open spec fn lengths_differ() -> Seq<char> {
    "cfs.len() and cf_opts.len() not match."@
}

/// What is reported when the engine names no error and yet hands back a null
/// column family.
pub open spec fn null_cf_handle() -> Seq<char> {
    "Received null column family handle from DB."@
}

/// What is reported when the engine names no error and yet hands back no
/// database.
pub open spec fn no_database() -> Seq<char> {
    "Could not initialize database."@
}

/// What is reported when the engine cannot make its read options.
pub open spec fn no_read_options() -> Seq<char> {
    "Unable to create rocksdb read options.  This is a fairly trivial call, and its failure may be indicative of a mis-compiled or mis-loaded rocksdb library."@
}

/// What stands in front of the name when a column family is not known.
pub open spec fn invalid_cf() -> Seq<char> {
    "Invalid column family: "@
}

} // verus!
