//! Decoding raw host bytes into text, and the hidden-name convention.

use vstd::prelude::*;
use vstd::string::StrSliceExecFns;
use vstd::utf8::{decode_utf8, valid_utf8};

verus! {

/// By convention, an entry is hidden when its name starts with `.`.
pub open spec fn is_hidden(name: Seq<char>) -> bool {
    name.len() > 0 && name[0] == '.'
}

/// Relies on `String::from_utf8`: it returns the string holding the given
/// bytes exactly when they are valid UTF-8, and an error otherwise.
#[verifier::external_body]
pub(crate) fn decode_text(bytes: Vec<u8>) -> (r: Option<String>)
    ensures
        r is Some <==> valid_utf8(bytes@),
        r matches Some(s) ==> s@ == decode_utf8(bytes@),
{
    String::from_utf8(bytes).ok()
}

/// True exactly when `name` begins with the hidden-file marker.
pub fn is_hidden_name(name: &String) -> (b: bool)
    ensures
        b == is_hidden(name@),
{
    let s = name.as_str();
    if s.is_empty() {
        false
    } else {
        s.get_char(0) == '.'
    }
}

} // verus!
