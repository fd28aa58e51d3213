//! Text filters that the page templates apply.

use vstd::prelude::*;
use vstd::utf8::{decode_utf8, decode_utf8_split, encode_utf8, is_char_boundary};

verus! {

/// The first `count` bytes of a text, read as characters.
pub open spec fn taken(text: Seq<char>, count: int) -> Seq<char> {
    decode_utf8(encode_utf8(text).subrange(0, count))
}

/// The first `count` bytes of `s` as an owned string. `count` must fall
/// between two characters of `s`, or at its end.
pub fn take(s: &str, count: usize) -> (r: String)
    requires
        is_char_boundary(encode_utf8(s@), count as int),
    ensures
        r@ == taken(s@, count as int),
        encode_utf8(r@) == encode_utf8(s@).subrange(0, count as int),
        r@.is_prefix_of(s@),
{
    broadcast use vstd::utf8::group_utf8_lib;

    let (head, _rest) = s.split_at(count);
    proof {
        let bytes = encode_utf8(s@);
        decode_utf8_split(bytes, count as int);
    }
    head.to_owned()
}

} // verus!
