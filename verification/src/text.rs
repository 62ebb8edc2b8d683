//! Decoding of fixed-capacity embedded text buffers: an embedded NUL
//! terminates the text, and the bytes before it must be well-formed UTF-8.

use vstd::prelude::*;

use crate::errors::DecodeError;
use vstd::slice::slice_subrange;
use vstd::utf8::{decode_utf8, valid_utf8};

verus! {

/// The logical text of a fixed-capacity buffer: the bytes before the first
/// NUL, or the whole buffer when no NUL is present.
pub open spec fn cstr_prefix(bytes: Seq<u8>) -> Seq<u8>
    decreases bytes.len(),
{
    if bytes.len() == 0 {
        Seq::empty()
    } else if bytes[0] == 0 {
        Seq::empty()
    } else {
        seq![bytes[0]] + cstr_prefix(bytes.skip(1))
    }
}

/// When the first `i` bytes are non-NUL and byte `i` (if any) is NUL, the
/// logical text is exactly those first `i` bytes.
proof fn lemma_cstr_prefix_subrange(bytes: Seq<u8>, i: int)
    requires
        0 <= i <= bytes.len(),
        forall|j: int| 0 <= j < i ==> bytes[j] != 0,
        i == bytes.len() || bytes[i] == 0,
    ensures
        cstr_prefix(bytes) =~= bytes.subrange(0, i),
    decreases i,
{
    if i == 0 {
    } else {
        assert(bytes[0] != 0);
        lemma_cstr_prefix_subrange(bytes.skip(1), i - 1);
        assert(cstr_prefix(bytes) =~= seq![bytes[0]] + bytes.skip(1).subrange(0, i - 1));
    }
}

/// Relies on core::str::from_utf8: it succeeds exactly on well-formed UTF-8
/// and yields the characters those bytes encode.
#[verifier::external_body]
fn utf8_to_string(bytes: &[u8]) -> (r: Option<String>)
    ensures
        r is Some <==> valid_utf8(bytes@),
        r matches Some(s) ==> s@ == decode_utf8(bytes@),
{
    match core::str::from_utf8(bytes) {
        Ok(s) => Some(s.to_owned()),
        Err(_) => None,
    }
}

/// Decodes the text embedded in a fixed-capacity buffer. An embedded NUL
/// terminates the text; bytes that are not well-formed UTF-8 are a fatal
/// decode error.
pub fn cstr_to_string(bytes: &[u8]) -> (r: Result<String, DecodeError>)
    ensures
        r is Ok <==> valid_utf8(cstr_prefix(bytes@)),
        r matches Ok(s) ==> s@ == decode_utf8(cstr_prefix(bytes@)),
        r matches Err(e) ==> e == DecodeError::MalformedText,
{
    let len = bytes.len();
    let mut i: usize = 0;
    while i < len && *vstd::slice::slice_index_get(bytes, i) != 0
        invariant
            0 <= i <= len,
            len == bytes@.len(),
            forall|j: int| 0 <= j < i ==> bytes@[j] != 0,
        decreases len - i,
    {
        i += 1;
    }
    proof {
        lemma_cstr_prefix_subrange(bytes@, i as int);
    }
    let prefix = slice_subrange(bytes, 0, i);
    match utf8_to_string(prefix) {
        Some(s) => Ok(s),
        None => Err(DecodeError::MalformedText),
    }
}

} // verus!
