//! The text that bytes hold.

use vstd::prelude::*;
use vstd::utf8::{encode_utf8, valid_utf8};

verus! {

/// `std::str::from_utf8`: the text that the first `count` bytes encode, which are UTF-8.
#[verifier::external_body]
pub(super) fn text_in(bytes: &[u8; 15], count: usize) -> (text: &str)
    requires
        count <= 15,
        valid_utf8(bytes@.subrange(0, count as int)),
    ensures
        encode_utf8(text@) == bytes@.subrange(0, count as int),
{
    std::str::from_utf8(&bytes[..count]).unwrap()
}

/// `std::str::from_utf8_mut`: the text that the first `count` bytes encode, which are UTF-8. What the
/// text becomes, these bytes become; a `str` keeps its length, and the other bytes stay.
#[verifier::external_body]
pub(super) fn text_in_mut(bytes: &mut [u8; 15], count: usize) -> (text: &mut str)
    requires
        count <= 15,
        valid_utf8(old(bytes)@.subrange(0, count as int)),
    ensures
        encode_utf8(text@) == old(bytes)@.subrange(0, count as int),
        final(bytes)@.subrange(0, count as int) == encode_utf8(final(text)@),
        final(bytes)@.subrange(count as int, 15) == old(bytes)@.subrange(count as int, 15),
    no_unwind
{
    std::str::from_utf8_mut(&mut bytes[..count]).unwrap()
}

/// `String::as_mut_str`: the text of `string`. What the text becomes, `string` becomes; a `str` keeps
/// its length in bytes.
#[verifier::external_body]
pub(super) fn text_of_mut(string: &mut String) -> (text: &mut str)
    ensures
        text@ == old(string)@,
        final(string)@ == final(text)@,
        encode_utf8(final(text)@).len() == encode_utf8(old(string)@).len(),
    no_unwind
{
    string.as_mut_str()
}

} // verus!
