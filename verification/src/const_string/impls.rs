//! The traits of strings, for strings of fixed length.

use std::borrow::{Borrow, BorrowMut};
use std::cmp::Ordering;
use std::convert::Infallible;
use std::hash::{Hash, Hasher};
use std::ops::{Deref, DerefMut};
use std::str::FromStr;

use vstd::prelude::*;
use vstd::std_specs::cmp::{PartialEqSpec, PartialOrdSpec};
use vstd::utf8::encode_utf8;

use super::order::{compare, text_order};
use super::{ConstString, HeapStackStr, HeapStr, STACK_LEN_MAX};

verus! {

impl Deref for ConstString {
    type Target = str;

    fn deref(&self) -> (str: &str)
        ensures
            str@ == self@,
    {
        self.as_str()
    }
}

impl DerefMut for ConstString {
    fn deref_mut(&mut self) -> (str: &mut str)
        ensures
            str@ == old(self)@,
            final(self)@ == final(str)@,
            encode_utf8(final(self)@).len() == encode_utf8(old(self)@).len(),
            final(self).is_held_in_place() == old(self).is_held_in_place(),
    {
        self.as_mut_str()
    }
}

impl AsRef<str> for ConstString {
    fn as_ref(&self) -> (str: &str)
        ensures
            str@ == self@,
    {
        self.as_str()
    }
}

impl AsMut<str> for ConstString {
    fn as_mut(&mut self) -> (str: &mut str)
        ensures
            str@ == old(self)@,
            final(self)@ == final(str)@,
            encode_utf8(final(self)@).len() == encode_utf8(old(self)@).len(),
            final(self).is_held_in_place() == old(self).is_held_in_place(),
    {
        self.as_mut_str()
    }
}

/// The characters of a borrowed text.
pub open spec fn characters(str: &str) -> Seq<char> {
    str@
}

impl Borrow<str> for ConstString {
    fn borrow(&self) -> (str: &str)
        ensures
            characters(str) == self@,
    {
        self.as_str()
    }
}

impl BorrowMut<str> for ConstString {
    fn borrow_mut(&mut self) -> (str: &mut str)
        ensures
            characters(str) == old(self)@,
            final(self)@ == characters(final(str)),
            encode_utf8(final(self)@).len() == encode_utf8(old(self)@).len(),
            final(self).is_held_in_place() == old(self).is_held_in_place(),
    {
        self.as_mut_str()
    }
}

impl Default for ConstString {
    fn default() -> (string: Self)
        ensures
            string@ == Seq::<char>::empty(),
            string.is_held_in_place(),
    {
        proof {
            reveal_strlit("");
        }
        assert(""@ =~= Seq::<char>::empty());
        ConstString::new("")
    }
}

impl From<&str> for ConstString {
    fn from(value: &str) -> (string: Self)
        ensures
            string@ == value@,
            string.is_held_in_place() <==> encode_utf8(value@).len() <= STACK_LEN_MAX,
    {
        ConstString::new(value)
    }
}

/// A text may be held by more than one value, so what `from` makes is told by its characters alone.
impl vstd::std_specs::convert::FromSpecImpl<&str> for ConstString {
    open spec fn obeys_from_spec() -> bool {
        false
    }

    open spec fn from_spec(value: &str) -> Self {
        arbitrary()
    }
}

impl From<String> for ConstString {
    fn from(value: String) -> (string: Self)
        ensures
            string@ == value@,
            string.is_held_in_place() <==> encode_utf8(value@).len() <= STACK_LEN_MAX,
    {
        ConstString::new(value.as_str())
    }
}

impl vstd::std_specs::convert::FromSpecImpl<String> for ConstString {
    open spec fn obeys_from_spec() -> bool {
        false
    }

    open spec fn from_spec(value: String) -> Self {
        arbitrary()
    }
}

impl FromStr for ConstString {
    type Err = Infallible;

    fn from_str(s: &str) -> (string: Result<Self, Infallible>)
        ensures
            string matches Ok(string) && string@ == s@ && (string.is_held_in_place() <==> encode_utf8(
                s@,
            ).len() <= STACK_LEN_MAX),
    {
        Ok(ConstString::from(s))
    }
}

impl From<ConstString> for String {
    fn from(value: ConstString) -> (string: Self)
        ensures
            string@ == value@,
    {
        value.into_string()
    }
}

impl vstd::std_specs::convert::FromSpecImpl<ConstString> for String {
    open spec fn obeys_from_spec() -> bool {
        false
    }

    open spec fn from_spec(value: ConstString) -> Self {
        arbitrary()
    }
}

/// A hasher, lent for a call.
pub struct Lent<'a, H> {
    /// The hasher.
    pub hasher: &'a mut H,
}

/// `str`'s `hash`, with the hasher that is lent. Nothing is stated of the hasher that it leaves, which is
/// up to the hasher.
#[verifier::external_body]
fn hash_text<H: Hasher>(text: &str, lent: Lent<H>) {
    text.hash(lent.hasher)
}

/// `text` was hashed by `str`'s `hash` with the hasher that was lent.
pub closed spec fn hashed<H: Hasher>(text: &str, lent: Lent<H>) -> bool {
    call_ensures(hash_text::<H>, (text, lent), ())
}

impl Hash for ConstString {
    /// A string is hashed as its characters are: by `str`'s `hash`, which is given the hasher as it is
    /// and leaves it as it stays.
    fn hash<H: Hasher>(&self, state: &mut H)
        ensures
            exists|str: &str, lent: Lent<H>|
                str@ == self@ && *lent.hasher == *old(state) && *final(lent.hasher) == *final(state)
                    && #[trigger] hashed::<H>(str, lent),
    {
        let str = self.as_str();
        let lent = Lent { hasher: state };
        let ghost given = lent;
        hash_text(str, lent);
        assert(hashed(str, given));
    }
}

impl PartialEq for ConstString {
    fn eq(&self, other: &Self) -> (equal: bool) {
        proof {
            super::order::law_order_tells_texts_apart(self@, other@);
        }
        match compare(self.as_str(), other.as_str()) {
            Ordering::Equal => true,
            _ => false,
        }
    }
}

impl vstd::std_specs::cmp::PartialEqSpecImpl for ConstString {
    open spec fn obeys_eq_spec() -> bool {
        true
    }

    open spec fn eq_spec(&self, other: &Self) -> bool {
        self@ == other@
    }
}

impl Eq for ConstString {

}

impl PartialOrd for ConstString {
    fn partial_cmp(&self, other: &Self) -> (order: Option<Ordering>) {
        Some(compare(self.as_str(), other.as_str()))
    }
}

impl vstd::std_specs::cmp::PartialOrdSpecImpl for ConstString {
    open spec fn obeys_partial_cmp_spec() -> bool {
        true
    }

    open spec fn partial_cmp_spec(&self, other: &Self) -> Option<Ordering> {
        Some(text_order(self@, other@))
    }
}

/// The text of `string` was hashed with the hasher that was lent.
pub open spec fn has_hashed<H: Hasher>(string: ConstString, lent: Lent<H>) -> bool {
    exists|str: &str| str@ == string@ && #[trigger] hashed::<H>(str, lent)
}

/// Strings are equal just where neither stands before the other, and equal strings are hashed alike,
/// wherever they are held.
pub proof fn law_equality_goes_with_order_and_hash<H: Hasher>(
    a: ConstString,
    b: ConstString,
    lent: Lent<H>,
)
    ensures
        a.eq_spec(&b) <==> a.partial_cmp_spec(&b) == Some(Ordering::Equal),
        a.eq_spec(&b) ==> has_hashed(a, lent) == has_hashed(b, lent),
{
    super::order::law_order_tells_texts_apart(a@, b@);
}

/// Strings stand to each other as their UTF-8 bytes do: the first that differs decides, as a number, and
/// where one string ends before any differs, it stands before the other. `<`, `>` and the like follow.
pub proof fn law_strings_are_ordered_by_their_bytes(a: ConstString, b: ConstString, at: int)
    requires
        0 <= at <= encode_utf8(a@).len(),
        at <= encode_utf8(b@).len(),
        forall|i: int| 0 <= i < at ==> encode_utf8(a@)[i] == encode_utf8(b@)[i],
    ensures
        ({
            let (x, y) = (encode_utf8(a@), encode_utf8(b@));
            let order = a.partial_cmp_spec(&b);
            &&& at < x.len() && at < y.len() && x[at] < y[at] ==> order == Some(Ordering::Less)
            &&& at < x.len() && at < y.len() && x[at] > y[at] ==> order == Some(Ordering::Greater)
            &&& at == x.len() && at < y.len() ==> order == Some(Ordering::Less)
            &&& at < x.len() && at == y.len() ==> order == Some(Ordering::Greater)
            &&& at == x.len() && at == y.len() ==> order == Some(Ordering::Equal)
        }),
{
    super::order::law_first_difference_decides(a@, b@, at);
}

/// Strings are equal just where their characters are, and `==` says so.
pub proof fn law_equal_strings_have_the_same_characters(a: ConstString, b: ConstString)
    ensures
        ConstString::obeys_eq_spec(),
        ConstString::obeys_partial_cmp_spec(),
        a.eq_spec(&b) <==> a@.len() == b@.len() && forall|i: int|
            0 <= i < a@.len() ==> a@[i] == b@[i],
{
    if a@.len() == b@.len() && forall|i: int| 0 <= i < a@.len() ==> a@[i] == b@[i] {
        assert(a@ =~= b@);
    }
}

/// Any two strings can be told apart by their order, whichever is asked first.
pub proof fn law_order_is_total(a: ConstString, b: ConstString)
    ensures
        a.partial_cmp_spec(&b) is Some,
        a.partial_cmp_spec(&b) == Some(Ordering::Less) <==> b.partial_cmp_spec(&a) == Some(
            Ordering::Greater,
        ),
        a.partial_cmp_spec(&b) == Some(Ordering::Equal) <==> b.partial_cmp_spec(&a) == Some(
            Ordering::Equal,
        ),
{
    super::order::law_order_can_be_turned(a@, b@);
    super::order::law_order_tells_texts_apart(a@, b@);
    super::order::law_order_tells_texts_apart(b@, a@);
}

impl Clone for ConstString {
    fn clone(&self) -> (string: Self)
        ensures
            string@ == self@,
            string.is_held_in_place() == self.is_held_in_place(),
    {
        proof {
            use_type_invariant(self);
        }
        ConstString {
            inner: match &self.inner {
                HeapStackStr::Stack(stack) => HeapStackStr::Stack(*stack),
                HeapStackStr::Heap(heap) => HeapStackStr::Heap(HeapStr::new(heap.as_str())),
            },
        }
    }
}

/// A string is held in place if its UTF-8 takes fifteen bytes or fewer.
pub proof fn law_fifteen_bytes_are_held_in_place()
    ensures
        STACK_LEN_MAX == 15,
{
}

/// A borrowed text has the characters that it has.
pub proof fn law_borrowed_text_is_the_text(str: &str)
    ensures
        characters(str) == str@,
{
}

/// A text that is said to have been hashed was hashed by `str`'s `hash`.
proof fn law_hashed_is_a_call<H: Hasher>(text: &str, lent: Lent<H>)
    ensures
        hashed(text, lent) ==> call_ensures(hash_text::<H>, (text, lent), ()),
{
}

} // verus!
