//! A string whose length is fixed when it is made. A short one is held in place, a longer one in an
//! allocation of just its length.

pub mod impls;
pub mod order;
mod text;

use vstd::prelude::*;
use vstd::utf8::{decode_utf8, encode_utf8, valid_utf8};

use self::text::{text_in, text_in_mut, text_of_mut};

verus! {

/// The longest string, in bytes, that is held in place.
pub const STACK_LEN_MAX: usize = 15;

/// A string of fixed length.
pub struct ConstString {
    inner: HeapStackStr,
}

/// Where the bytes of a string are.
enum HeapStackStr {
    Heap(HeapStr),
    Stack(StackStr),
}

/// A string of up to `STACK_LEN_MAX` bytes. `len` is twice the length and one, the lowest bit being
/// the tag of a string that is held in place.
#[derive(Clone, Copy)]
struct StackStr {
    len: u8,
    str: [u8; 15],
}

/// A string in an allocation of its own.
struct HeapStr {
    str: String,
}

/// The length that a tagged length stands for.
spec fn untagged(len: u8) -> u8 {
    len >> 1
}

proof fn lemma_tag(len: u8)
    requires
        len <= 15,
    ensures
        untagged((len << 1) | 1) == len,
        ((len << 1) | 1) & 1 != 0,
{
    assert(len <= 15 ==> ((len << 1) | 1) >> 1 == len && ((len << 1) | 1) & 1 != 0) by (bit_vector);
}

impl StackStr {
    #[verifier::type_invariant]
    spec fn wf(self) -> bool {
        &&& self.len & 1 != 0
        &&& untagged(self.len) <= 15
        &&& valid_utf8(self.bytes())
    }

    spec fn bytes(self) -> Seq<u8> {
        self.str@.subrange(0, untagged(self.len) as int)
    }

    fn new(val: &str) -> (stack: Self)
        requires
            encode_utf8(val@).len() <= 15,
        ensures
            stack.bytes() == encode_utf8(val@),
    {
        broadcast use vstd::utf8::encode_utf8_valid_utf8;

        let src = val.as_bytes();
        let count = src.len();
        let mut str = [0u8; 15];
        let mut i: usize = 0;
        while i < count
            invariant
                i <= count,
                count == src@.len(),
                count <= 15,
                str@.len() == 15,
                str@.subrange(0, i as int) == src@.subrange(0, i as int),
            decreases count - i,
        {
            str[i] = src[i];
            i = i + 1;
            assert(str@.subrange(0, i as int) =~= src@.subrange(0, i as int));
        }
        assert(src@.subrange(0, count as int) =~= src@);
        proof {
            lemma_tag(count as u8);
        }
        StackStr { len: ((count as u8) << 1) | 1, str }
    }

    fn len(&self) -> (len: usize)
        ensures
            len == self.bytes().len(),
        no_unwind
    {
        proof {
            use_type_invariant(self);
        }
        (self.len >> 1) as usize
    }

    fn as_str(&self) -> (str: &str)
        ensures
            encode_utf8(str@) == self.bytes(),
    {
        proof {
            use_type_invariant(self);
        }
        text_in(&self.str, self.len())
    }

    fn as_mut_str(&mut self) -> (str: &mut str)
        ensures
            encode_utf8(str@) == old(self).bytes(),
            final(self).bytes() == encode_utf8(final(str)@),
            final(self).wf(),
            final(self).bytes().len() == old(self).bytes().len(),
        no_unwind
    {
        broadcast use vstd::utf8::encode_utf8_valid_utf8;

        proof {
            use_type_invariant(&*self);
        }
        let count = self.len();
        text_in_mut(&mut self.str, count)
    }
}

impl HeapStr {
    fn new(val: &str) -> (heap: Self)
        ensures
            heap.str@ == val@,
    {
        HeapStr { str: val.to_owned() }
    }

    fn len(&self) -> (len: usize)
        ensures
            len == encode_utf8(self.str@).len(),
    {
        self.str.as_str().as_bytes().len()
    }

    fn as_str(&self) -> (str: &str)
        ensures
            str@ == self.str@,
    {
        self.str.as_str()
    }

    fn as_mut_str(&mut self) -> (str: &mut str)
        ensures
            str@ == old(self).str@,
            final(self).str@ == final(str)@,
            encode_utf8(final(str)@).len() == encode_utf8(old(self).str@).len(),
        no_unwind
    {
        text_of_mut(&mut self.str)
    }
}

impl HeapStackStr {
    /// Short strings are held in place, and they alone.
    spec fn wf(self) -> bool {
        match self {
            HeapStackStr::Heap(heap) => encode_utf8(heap.str@).len() > STACK_LEN_MAX,
            HeapStackStr::Stack(stack) => stack.wf(),
        }
    }

    spec fn text(self) -> Seq<char> {
        match self {
            HeapStackStr::Heap(heap) => heap.str@,
            HeapStackStr::Stack(stack) => decode_utf8(stack.bytes()),
        }
    }

    fn new(val: &str) -> (inner: Self)
        ensures
            inner.wf(),
            inner.text() == val@,
    {
        broadcast use vstd::utf8::encode_utf8_decode_utf8;

        if val.as_bytes().len() <= STACK_LEN_MAX {
            let stack = StackStr::new(val);
            proof {
                use_type_invariant(&stack);
            }
            HeapStackStr::Stack(stack)
        } else {
            HeapStackStr::Heap(HeapStr::new(val))
        }
    }

    fn len(&self) -> (len: usize)
        requires
            self.wf(),
        ensures
            len == encode_utf8(self.text()).len(),
    {
        broadcast use vstd::utf8::decode_utf8_encode_utf8;

        match self {
            HeapStackStr::Heap(heap) => heap.len(),
            HeapStackStr::Stack(stack) => stack.len(),
        }
    }

    fn as_str(&self) -> (str: &str)
        ensures
            str@ == self.text(),
    {
        broadcast use vstd::utf8::encode_utf8_decode_utf8;

        match self {
            HeapStackStr::Heap(heap) => heap.as_str(),
            HeapStackStr::Stack(stack) => stack.as_str(),
        }
    }

    fn as_mut_str(&mut self) -> (str: &mut str)
        requires
            old(self).wf(),
        ensures
            final(self).wf(),
            str@ == old(self).text(),
            final(self).text() == final(str)@,
            encode_utf8(final(str)@).len() == encode_utf8(old(self).text()).len(),
            (*final(self) is Stack) == (*old(self) is Stack),
        no_unwind
    {
        broadcast use vstd::utf8::encode_utf8_decode_utf8, vstd::utf8::decode_utf8_encode_utf8;

        match self {
            HeapStackStr::Heap(heap) => heap.as_mut_str(),
            HeapStackStr::Stack(stack) => stack.as_mut_str(),
        }
    }

    fn into_string(self) -> (string: String)
        ensures
            string@ == self.text(),
    {
        broadcast use vstd::utf8::encode_utf8_decode_utf8;

        match self {
            HeapStackStr::Heap(heap) => heap.str,
            HeapStackStr::Stack(stack) => stack.as_str().to_owned(),
        }
    }
}

impl View for ConstString {
    type V = Seq<char>;

    closed spec fn view(&self) -> Seq<char> {
        self.inner.text()
    }
}

impl ConstString {
    #[verifier::type_invariant]
    spec fn wf(self) -> bool {
        self.inner.wf()
    }

    /// Whether the string needs no allocation.
    pub closed spec fn is_held_in_place(self) -> bool {
        self.inner is Stack
    }

    /// A string of the characters of `val`, held in place if it is short enough.
    pub fn new(val: &str) -> (string: Self)
        ensures
            string@ == val@,
            string.is_held_in_place() <==> encode_utf8(val@).len() <= STACK_LEN_MAX,
    {
        broadcast use vstd::utf8::decode_utf8_encode_utf8;

        ConstString { inner: HeapStackStr::new(val) }
    }

    /// The length in bytes.
    pub fn len(&self) -> (len: usize)
        ensures
            len == encode_utf8(self@).len(),
    {
        proof {
            use_type_invariant(self);
        }
        self.inner.len()
    }

    /// The characters.
    pub fn as_str(&self) -> (str: &str)
        ensures
            str@ == self@,
    {
        self.inner.as_str()
    }

    /// The characters, to be replaced by as many bytes of others.
    pub fn as_mut_str(&mut self) -> (str: &mut str)
        ensures
            str@ == old(self)@,
            final(self)@ == final(str)@,
            encode_utf8(final(self)@).len() == encode_utf8(old(self)@).len(),
            final(self).is_held_in_place() == old(self).is_held_in_place(),
    {
        proof {
            use_type_invariant(&*self);
        }
        self.inner.as_mut_str()
    }

    /// This string as a `String`. One in an allocation of its own keeps it.
    pub fn into_string(self) -> (string: String)
        ensures
            string@ == self@,
    {
        self.inner.into_string()
    }
}

/// A string is held in place where its bytes are in it and not in an allocation of their own, and its
/// characters are those that its bytes encode.
proof fn law_held_in_place_is_on_the_stack(string: ConstString)
    ensures
        string.is_held_in_place() <==> string.inner is Stack,
        string.inner matches HeapStackStr::Stack(stack) ==> string@ == decode_utf8(stack.bytes()),
        string.inner matches HeapStackStr::Heap(heap) ==> string@ == heap.str@,
{
}

} // verus!
