use vstd::prelude::*;
use bitvec::array::BitArray;
use bitvec::order::Lsb0;

verus! {

/// A fixed set of 1024 interrupt ids, one bit per id, kept in a bitvec bit array.
#[verifier::external_body]
pub struct IdBits {
    bits: BitArray<[u32; 32], Lsb0>,
}

/// The bits held by an `IdBits`, in index order.
pub uninterp spec fn bits_of(b: IdBits) -> Seq<bool>;

/// Bit `i` of a sequence of 32-bit words, counted from the least significant bit of the
/// first word.
pub open spec fn word_bit(words: Seq<u32>, i: int) -> bool {
    (words[i / 32] >> ((i % 32) as u32)) & 1u32 == 1u32
}

impl IdBits {
    /// Relies on bitvec's `BitArray::new`: the array takes the words as its storage, and
    /// with `Lsb0` ordering bit `i` is bit `i % 32` of word `i / 32`.
    #[verifier::external_body]
    pub(crate) fn from_words(words: [u32; 32]) -> (r: IdBits)
        ensures
            forall|i: int| 0 <= i < 1024 ==> #[trigger] bits_of(r)[i] == word_bit(words@, i),
    {
        IdBits { bits: BitArray::new(words) }
    }

    /// Relies on bitvec's `Index<usize>` for `BitArray`: it reads bit `i`, and panics past
    /// the array's 1024 bits.
    #[verifier::external_body]
    pub(crate) fn get(&self, i: usize) -> (r: bool)
        requires
            i < 1024,
        ensures
            r == bits_of(*self)[i as int],
    {
        self.bits[i]
    }
}

} // verus!
