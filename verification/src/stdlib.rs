//! The calls into std's path and text handling that the library makes.
//! Each is a trusted item: Verus believes its contract without reading it.

use vstd::prelude::*;
use vstd::utf8::{decode_utf8, valid_utf8};

verus! {

/// What `std::path::Path::file_name` gives for a path: its final
/// component, if there is one.
pub uninterp spec fn path_file_name(path: Seq<char>) -> Option<Seq<char>>;

/// What `std::path::Path::parent` gives for a path: the path without its
/// final component, if there is one.
pub uninterp spec fn path_parent(path: Seq<char>) -> Option<Seq<char>>;

/// What `str::to_lowercase` gives for a text.
pub uninterp spec fn lowercase(text: Seq<char>) -> Seq<char>;

/// The message of the error that `String::from_utf8` gives for bytes that
/// are not valid UTF-8.
pub uninterp spec fn utf8_error_text(bytes: Seq<u8>) -> Seq<char>;

/// What `String::from_utf8_lossy` gives for some bytes.
pub uninterp spec fn lossy_text(bytes: Seq<u8>) -> Seq<char>;

/// Calls `std::path::Path::file_name`. The contract claims only that the
/// result is the one `path_file_name` names for this path, read as text
/// (the component of a path given as text is text). What the final
/// component is, std's source decides; nothing of it is stated here.
#[verifier::external_body]
pub(crate) fn file_name_of(path: &str) -> (res: Option<String>)
    ensures
        match res {
            Some(name) => path_file_name(path@) == Some(name@),
            None => path_file_name(path@) is None,
        },
{
    match std::path::Path::new(path).file_name() {
        Some(name) => Some(name.to_string_lossy().into_owned()),
        None => None,
    }
}

/// Calls `std::path::Path::parent`. The contract claims only that the
/// result is the one `path_parent` names for this path, read as text.
/// Which paths have a parent, std's source decides; nothing of it is
/// stated here.
#[verifier::external_body]
pub(crate) fn parent_of(path: &str) -> (res: Option<String>)
    ensures
        match res {
            Some(parent) => path_parent(path@) == Some(parent@),
            None => path_parent(path@) is None,
        },
{
    match std::path::Path::new(path).parent() {
        Some(parent) => Some(parent.to_string_lossy().into_owned()),
        None => None,
    }
}

/// Calls `str::to_lowercase`. The contract claims only that the result is
/// the one `lowercase` names for this text; the Unicode case mapping
/// itself is not stated.
#[verifier::external_body]
pub(crate) fn to_lowercase(text: &str) -> (res: String)
    ensures
        res@ == lowercase(text@),
{
    text.to_lowercase()
}

/// Calls `String::from_utf8`: the bytes decoded as text when they are
/// valid UTF-8, and otherwise the error's message, the one that
/// `utf8_error_text` names for these bytes. What that message says is not
/// stated.
#[verifier::external_body]
pub(crate) fn text_from_utf8(bytes: Vec<u8>) -> (res: Result<String, String>)
    ensures
        res is Ok <==> valid_utf8(bytes@),
        res matches Ok(text) ==> text@ == decode_utf8(bytes@),
        res matches Err(message) ==> message@ == utf8_error_text(bytes@),
{
    match String::from_utf8(bytes) {
        Ok(text) => Ok(text),
        Err(error) => Err(error.to_string()),
    }
}

/// Calls `String::from_utf8_lossy`. The contract claims that the result is
/// the one `lossy_text` names for the bytes, and, as std documents, that
/// valid UTF-8 is decoded as it stands. How invalid sequences are replaced
/// is not stated.
#[verifier::external_body]
pub(crate) fn text_from_utf8_lossy(bytes: &Vec<u8>) -> (res: String)
    ensures
        res@ == lossy_text(bytes@),
        valid_utf8(bytes@) ==> res@ == decode_utf8(bytes@),
{
    String::from_utf8_lossy(bytes.as_slice()).into_owned()
}

} // verus!
