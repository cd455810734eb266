//! Named bits of a `u32` state word.

use vstd::prelude::*;

verus! {

/// A named bit (or group of bits) of a state word.
pub trait Bit: Sized {
    /// The bits that this name stands for. Whoever does not say leaves it open.
    open spec fn mask(self) -> u32 {
        arbitrary()
    }

    /// Returns the mask.
    fn bit(self) -> (mask: u32)
        ensures
            mask == self.mask(),
    ;
}

/// Adding, clearing and testing the named bits of a state word.
pub trait BitWith<B: Bit>: Sized {
    /// The word with the named bits set.
    spec fn having(self, bit: B) -> Self;

    /// The word with the named bits cleared.
    spec fn lacking(self, bit: B) -> Self;

    /// Whether any of the named bits is set.
    spec fn shows(self, bit: B) -> bool;

    /// Sets the named bits and returns the new word.
    fn with(self, bit: B) -> (word: Self)
        ensures
            word == self.having(bit),
    ;

    /// Clears the named bits and returns the new word.
    fn without(self, bit: B) -> (word: Self)
        ensures
            word == self.lacking(bit),
    ;

    /// Tells whether any of the named bits is set.
    fn is(self, bit: B) -> (set: bool)
        ensures
            set == self.shows(bit),
    ;
}

impl<B: Bit> BitWith<B> for u32 {
    open spec fn having(self, bit: B) -> u32 {
        self | bit.mask()
    }

    open spec fn lacking(self, bit: B) -> u32 {
        self & !bit.mask()
    }

    open spec fn shows(self, bit: B) -> bool {
        self & bit.mask() != 0
    }

    fn with(self, bit: B) -> (word: u32) {
        self | bit.bit()
    }

    fn without(self, bit: B) -> (word: u32) {
        self & !bit.bit()
    }

    fn is(self, bit: B) -> (set: bool) {
        self & bit.bit() != 0
    }
}

/// Setting a bit makes it show, and clearing it makes it not show.
pub proof fn law_set_then_test<B: Bit>(word: u32, bit: B)
    requires
        bit.mask() != 0,
    ensures
        word.having(bit).shows(bit),
        !word.lacking(bit).shows(bit),
{
    let m = bit.mask();
    assert((word | m) & m == m) by (bit_vector);
    assert((word & !m) & m == 0) by (bit_vector);
}

/// Setting or clearing a bit leaves every bit outside its mask as it was.
pub proof fn law_other_bits_stay<B: Bit>(word: u32, bit: B)
    ensures
        word.having(bit) & !bit.mask() == word & !bit.mask(),
        word.lacking(bit) & !bit.mask() == word & !bit.mask(),
{
    let m = bit.mask();
    assert((word | m) & !m == word & !m) by (bit_vector);
    assert((word & !m) & !m == word & !m) by (bit_vector);
}

/// Setting or clearing a bit leaves every other name as it was.
pub proof fn law_other_names_stay<B: Bit, C: Bit>(word: u32, bit: B, other: C)
    requires
        bit.mask() & other.mask() == 0,
    ensures
        word.having(bit).shows(other) == word.shows(other),
        word.lacking(bit).shows(other) == word.shows(other),
{
    let m = bit.mask();
    let n = other.mask();
    assert((word | m) & n == word & n) by (bit_vector)
        requires
            m & n == 0,
    ;
    assert((word & !m) & n == word & n) by (bit_vector)
        requires
            m & n == 0,
    ;
}

/// The later of a set and a clear of one bit decides.
pub proof fn law_last_change_decides<B: Bit>(word: u32, bit: B)
    ensures
        word.having(bit).lacking(bit) == word.lacking(bit),
        word.lacking(bit).having(bit) == word.having(bit),
        word.having(bit).having(bit) == word.having(bit),
        word.lacking(bit).lacking(bit) == word.lacking(bit),
{
    let m = bit.mask();
    assert((word | m) & !m == word & !m) by (bit_vector);
    assert((word & !m) | m == word | m) by (bit_vector);
    assert((word | m) | m == word | m) by (bit_vector);
    assert((word & !m) & !m == word & !m) by (bit_vector);
}

/// Each bit of a word is set where it was set or is named, is left where it was set and is not named, and
/// shows where it is both set and named. A word none of whose bits are named shows none.
pub proof fn law_each_bit<B: Bit>(word: u32, bit: B, at: u32)
    requires
        at < 32,
    ensures
        (word.having(bit) >> at) & 1 == 1 <==> (word >> at) & 1 == 1 || (bit.mask() >> at) & 1 == 1,
        (word.lacking(bit) >> at) & 1 == 1 <==> (word >> at) & 1 == 1 && (bit.mask() >> at) & 1 == 0,
        (word >> at) & 1 == 1 && (bit.mask() >> at) & 1 == 1 ==> word.shows(bit),
        word & bit.mask() == 0 ==> !word.shows(bit),
{
    let m = bit.mask();
    assert(at < 32 ==> (((word | m) >> at) & 1 == 1 <==> (word >> at) & 1 == 1 || (m >> at) & 1
        == 1)) by (bit_vector);
    assert(at < 32 ==> (((word & !m) >> at) & 1 == 1 <==> (word >> at) & 1 == 1 && (m >> at) & 1
        == 0)) by (bit_vector);
    assert(at < 32 && (word >> at) & 1 == 1 && (m >> at) & 1 == 1 ==> word & m != 0) by (bit_vector);
}

} // verus!
