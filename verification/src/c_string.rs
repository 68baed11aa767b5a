//! What a text must satisfy to cross the bridge as a C string, and the errors
//! reported when it does not.
use vstd::prelude::*;
use vstd::string::{StringExecFns, StringSliceAdditionalSpecFns};
use vstd::utf8::{encode_utf8, is_ascii_chars, is_ascii_chars_encode_utf8};

use crate::error::MetalKitError;

verus! {

/// Whether `bytes` can be handed over as a C string: it holds no NUL byte.
pub open spec fn fits_c_string(bytes: Seq<u8>) -> bool {
    !bytes.contains(0u8)
}

/// A byte string can travel as a C string exactly when none of its bytes is
/// 0; every other byte, from 1 to 255, is allowed.
pub proof fn lemma_fits_c_string_iff_no_zero_byte(bytes: Seq<u8>)
    ensures
        fits_c_string(bytes) <==> forall|i: int| 0 <= i < bytes.len() ==> bytes[i] != 0u8,
{
    if !fits_c_string(bytes) {
        let i = choose|i: int| 0 <= i < bytes.len() && bytes[i] == 0u8;
        assert(bytes[i] == 0u8);
    }
}

/// The message reported when the text named `label` holds a NUL byte.
pub open spec fn interior_nul_message(label: Seq<char>) -> Seq<char> {
    label + " contains an interior NUL byte"@
}

/// Whether every character of `text` is ASCII other than NUL.
pub open spec fn nul_free_ascii(text: Seq<char>) -> bool {
    forall|i: int| 0 <= i < text.len() ==> '\u{1}' <= #[trigger] text[i] <= '\u{7f}'
}

/// A text of ASCII characters other than NUL can travel as a C string.
pub proof fn lemma_nul_free_ascii_fits(text: Seq<char>)
    requires
        nul_free_ascii(text),
    ensures
        fits_c_string(encode_utf8(text)),
{
    assert(is_ascii_chars(text));
    is_ascii_chars_encode_utf8(text);
    let bytes = encode_utf8(text);
    assert forall|i: int| 0 <= i < bytes.len() implies bytes[i] != 0u8 by {
        assert(text[i] as u8 == bytes[i]);
        assert('\u{1}' <= text[i] <= '\u{7f}');
    }
}

/// Whether `bytes` holds a NUL byte, which a C string cannot carry.
pub fn has_interior_nul(bytes: &[u8]) -> (found: bool)
    ensures
        found == !fits_c_string(bytes@),
        found <==> exists|i: int| 0 <= i < bytes@.len() && bytes@[i] == 0u8,
{
    let mut i: usize = 0;
    while i < bytes.len()
        invariant
            0 <= i <= bytes@.len(),
            forall|j: int| 0 <= j < i ==> bytes@[j] != 0u8,
        decreases bytes@.len() - i,
    {
        if bytes[i] == 0u8 {
            assert(bytes@[i as int] == 0u8);
            return true;
        }
        i = i + 1;
    }
    false
}

/// Whether the UTF-8 encoding of `text` holds a NUL byte.
pub fn text_has_interior_nul(text: &str) -> (found: bool)
    ensures
        found == !fits_c_string(text.spec_bytes()),
{
    has_interior_nul(text.as_bytes())
}

/// The error reported when the text named `label` holds a NUL byte.
pub fn interior_nul_error(label: &str) -> (err: MetalKitError)
    ensures
        err@ == interior_nul_message(label@),
{
    let mut message = String::from_str(label);
    message.append(" contains an interior NUL byte");
    MetalKitError::new(message.as_str())
}

/// Checks that `bytes`, the text named `label`, can be handed over as a C string.
pub fn check_c_string(bytes: &[u8], label: &str) -> (checked: Result<(), MetalKitError>)
    ensures
        checked is Ok <==> fits_c_string(bytes@),
        checked matches Err(err) ==> err@ == interior_nul_message(label@),
{
    if has_interior_nul(bytes) {
        Err(interior_nul_error(label))
    } else {
        Ok(())
    }
}

/// Checks that each of `values`, texts named `label`, can be handed over as a C string.
pub fn check_c_strings(values: &Vec<Vec<u8>>, label: &str) -> (checked: Result<(), MetalKitError>)
    ensures
        checked is Ok <==> forall|i: int| 0 <= i < values@.len() ==> fits_c_string(#[trigger] values@[i]@),
        checked matches Err(err) ==> err@ == interior_nul_message(label@),
{
    let mut i: usize = 0;
    while i < values.len()
        invariant
            0 <= i <= values@.len(),
            forall|j: int| 0 <= j < i ==> fits_c_string(#[trigger] values@[j]@),
        decreases values@.len() - i,
    {
        if has_interior_nul(values[i].as_slice()) {
            return Err(interior_nul_error(label));
        }
        i = i + 1;
    }
    Ok(())
}

} // verus!
