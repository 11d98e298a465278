use vstd::prelude::*;
use vstd::utf8::encode_utf8;

verus! {

/// Length of `text` in bytes, as UTF-8.
pub open spec fn byte_len(text: Seq<char>) -> nat {
    encode_utf8(text).len()
}

/// Whether `text` takes at most `limit` bytes.
pub fn within_limit(text: &String, limit: usize) -> (ok: bool)
    ensures
        ok == (byte_len(text@) <= limit),
{
    let bytes = text.as_str().as_bytes();
    bytes.len() <= limit
}

} // verus!
