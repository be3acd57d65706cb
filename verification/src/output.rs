//! Rendering of the bytes captured on the output port. Valid text is
//! shown as text; anything else degrades to a hex dump rather than
//! failing the render.

use vstd::prelude::*;

use crate::hex::{hex_dump, spec_hex_dump};

verus! {

/// The text a byte buffer decodes to when it is valid UTF-8, and nothing
/// when it is not. The encoding is the standard library's; the result
/// depends on the bytes alone.
pub uninterp spec fn utf8_decoding(bytes: Seq<u8>) -> Option<Seq<char>>;

/// Relies on String::from_utf8: succeeds exactly when the bytes are valid
/// UTF-8 and then returns their decoding; an empty buffer is empty text.
#[verifier::external_body]
fn utf8_string(bytes: &Vec<u8>) -> (r: Option<String>)
    ensures
        r is Some <==> utf8_decoding(bytes@) is Some,
        r is Some ==> r->0@ == utf8_decoding(bytes@)->0,
        bytes@.len() == 0 ==> r is Some && r->0@ == Seq::<char>::empty(),
{
    String::from_utf8(bytes.clone()).ok()
}

/// What the output panel shows for the given captured bytes: their text
/// when they decode, else their hex dump.
pub open spec fn spec_output_text(bytes: Seq<u8>) -> Seq<char> {
    match utf8_decoding(bytes) {
        Some(text) => text,
        None => spec_hex_dump(bytes),
    }
}

/// Render captured output: decoded text when the bytes are valid UTF-8,
/// a hex dump otherwise, and never a failure. With nothing captured the
/// panel shows nothing.
pub fn output_text(bytes: &Vec<u8>) -> (s: String)
    ensures
        s@ == spec_output_text(bytes@),
        utf8_decoding(bytes@) is None ==> s@ == spec_hex_dump(bytes@),
        bytes@.len() == 0 ==> s@ == Seq::<char>::empty(),
{
    match utf8_string(bytes) {
        Some(text) => text,
        None => hex_dump(bytes),
    }
}

} // verus!
