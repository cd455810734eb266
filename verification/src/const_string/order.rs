//! The order of texts: byte by byte, a text before those that go on from it.

use std::cmp::Ordering;

use vstd::prelude::*;
use vstd::utf8::encode_utf8;

verus! {

/// How the bytes `a` stand to the bytes `b`: decided by the first two that differ, and where none do
/// by the lengths.
pub open spec fn bytes_order(a: Seq<u8>, b: Seq<u8>) -> Ordering
    decreases a.len(),
{
    if a.len() == 0 {
        if b.len() == 0 {
            Ordering::Equal
        } else {
            Ordering::Less
        }
    } else if b.len() == 0 {
        Ordering::Greater
    } else if a[0] < b[0] {
        Ordering::Less
    } else if a[0] > b[0] {
        Ordering::Greater
    } else {
        bytes_order(a.drop_first(), b.drop_first())
    }
}

/// How the text `a` stands to the text `b`: as their bytes do.
pub open spec fn text_order(a: Seq<char>, b: Seq<char>) -> Ordering {
    bytes_order(encode_utf8(a), encode_utf8(b))
}

/// A text stands to itself, and to no other, as an equal.
pub proof fn law_order_tells_texts_apart(a: Seq<char>, b: Seq<char>)
    ensures
        text_order(a, b) == Ordering::Equal <==> a == b,
{
    lemma_equal(encode_utf8(a), encode_utf8(b));
    vstd::utf8::encode_utf8_decode_utf8(a);
    vstd::utf8::encode_utf8_decode_utf8(b);
}

/// Of two texts, one stands before the other just where the other stands after it.
pub proof fn law_order_can_be_turned(a: Seq<char>, b: Seq<char>)
    ensures
        text_order(a, b) == Ordering::Less <==> text_order(b, a) == Ordering::Greater,
{
    lemma_turned(encode_utf8(a), encode_utf8(b));
}

/// What stands before a text stands before all that the text stands before.
pub proof fn law_order_goes_on(a: Seq<char>, b: Seq<char>, c: Seq<char>)
    requires
        text_order(a, b) == Ordering::Less,
        text_order(b, c) == Ordering::Less,
    ensures
        text_order(a, c) == Ordering::Less,
{
    lemma_goes_on(encode_utf8(a), encode_utf8(b), encode_utf8(c));
}

/// The first byte in which two texts differ decides, as a number: the text with the smaller one stands
/// before the other. Where one text ends before they differ, it stands before the other, and where both
/// end, they are equal. The bytes are those of UTF-8.
pub proof fn law_first_difference_decides(a: Seq<char>, b: Seq<char>, at: int)
    requires
        0 <= at <= encode_utf8(a).len(),
        at <= encode_utf8(b).len(),
        forall|i: int| 0 <= i < at ==> encode_utf8(a)[i] == encode_utf8(b)[i],
    ensures
        ({
            let (x, y) = (encode_utf8(a), encode_utf8(b));
            let order = text_order(a, b);
            &&& at < x.len() && at < y.len() && x[at] < y[at] ==> order == Ordering::Less
            &&& at < x.len() && at < y.len() && x[at] > y[at] ==> order == Ordering::Greater
            &&& at == x.len() && at < y.len() ==> order == Ordering::Less
            &&& at < x.len() && at == y.len() ==> order == Ordering::Greater
            &&& at == x.len() && at == y.len() ==> order == Ordering::Equal
        }),
{
    lemma_first_difference(encode_utf8(a), encode_utf8(b), at);
}

proof fn lemma_first_difference(x: Seq<u8>, y: Seq<u8>, at: int)
    requires
        0 <= at <= x.len(),
        at <= y.len(),
        forall|i: int| 0 <= i < at ==> x[i] == y[i],
    ensures
        at < x.len() && at < y.len() && x[at] < y[at] ==> bytes_order(x, y) == Ordering::Less,
        at < x.len() && at < y.len() && x[at] > y[at] ==> bytes_order(x, y) == Ordering::Greater,
        at == x.len() && at < y.len() ==> bytes_order(x, y) == Ordering::Less,
        at < x.len() && at == y.len() ==> bytes_order(x, y) == Ordering::Greater,
        at == x.len() && at == y.len() ==> bytes_order(x, y) == Ordering::Equal,
    decreases at,
{
    if at > 0 {
        lemma_first_difference(x.drop_first(), y.drop_first(), at - 1);
    }
}

proof fn lemma_equal(a: Seq<u8>, b: Seq<u8>)
    ensures
        bytes_order(a, b) == Ordering::Equal <==> a == b,
    decreases a.len(),
{
    if a.len() == 0 && b.len() == 0 {
        assert(a =~= b);
    } else if a.len() != 0 && b.len() != 0 && a[0] == b[0] {
        lemma_equal(a.drop_first(), b.drop_first());
        assert(a =~= seq![a[0]] + a.drop_first());
        assert(b =~= seq![b[0]] + b.drop_first());
    }
}

proof fn lemma_turned(a: Seq<u8>, b: Seq<u8>)
    ensures
        bytes_order(a, b) == Ordering::Less <==> bytes_order(b, a) == Ordering::Greater,
    decreases a.len(),
{
    if a.len() != 0 && b.len() != 0 && a[0] == b[0] {
        lemma_turned(a.drop_first(), b.drop_first());
    }
}

proof fn lemma_goes_on(a: Seq<u8>, b: Seq<u8>, c: Seq<u8>)
    requires
        bytes_order(a, b) == Ordering::Less,
        bytes_order(b, c) == Ordering::Less,
    ensures
        bytes_order(a, c) == Ordering::Less,
    decreases a.len(),
{
    if a.len() != 0 && b.len() != 0 && c.len() != 0 && a[0] == b[0] && b[0] == c[0] {
        lemma_goes_on(a.drop_first(), b.drop_first(), c.drop_first());
    }
}

/// What of `bytes` comes at `i` and behind.
spec fn rest(bytes: Seq<u8>, i: usize) -> Seq<u8> {
    bytes.skip(i as int)
}

proof fn lemma_rest(bytes: Seq<u8>, i: usize)
    requires
        i < bytes.len(),
    ensures
        rest(bytes, i).len() > 0,
        rest(bytes, i)[0] == bytes[i as int],
        forall|j: usize| j == i + 1 ==> rest(bytes, i).drop_first() == #[trigger] rest(bytes, j),
{
    assert forall|j: usize| j == i + 1 implies rest(bytes, i).drop_first() == #[trigger] rest(
        bytes,
        j,
    ) by {
        assert(rest(bytes, i).drop_first() =~= rest(bytes, j));
    }
}

/// How the text `a` stands to the text `b`.
pub(super) fn compare(a: &str, b: &str) -> (order: Ordering)
    ensures
        order == text_order(a@, b@),
{
    let x = a.as_bytes();
    let y = b.as_bytes();
    let mut i: usize = 0;
    assert(rest(x@, 0) =~= x@ && rest(y@, 0) =~= y@);
    while i < x.len() && i < y.len()
        invariant
            x@ == encode_utf8(a@),
            y@ == encode_utf8(b@),
            i <= x@.len(),
            i <= y@.len(),
            bytes_order(x@, y@) == bytes_order(rest(x@, i), rest(y@, i)),
        decreases x@.len() - i,
    {
        proof {
            lemma_rest(x@, i);
            lemma_rest(y@, i);
        }
        if x[i] < y[i] {
            return Ordering::Less;
        }
        if x[i] > y[i] {
            return Ordering::Greater;
        }
        i = i + 1;
    }
    if i < x.len() {
        Ordering::Greater
    } else if i < y.len() {
        Ordering::Less
    } else {
        Ordering::Equal
    }
}

} // verus!
