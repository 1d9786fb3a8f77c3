//! Primitive operations on fixed-width bit vectors: a square index 0-63
//! names one bit of a 64-bit plane.

use vstd::prelude::*;

verus! {

/// Bit `i` of `w` is set. Meaningful for `i < 64`.
pub open spec fn bit64(w: u64, i: u64) -> bool {
    w & (1u64 << i) != 0
}

pub broadcast proof fn lemma_bit_or(a: u64, b: u64, i: u64)
    ensures
        #[trigger] bit64(a | b, i) == (bit64(a, i) || bit64(b, i)),
{
    assert(((a | b) & (1u64 << i) != 0) == ((a & (1u64 << i) != 0) || (b & (1u64 << i) != 0)))
        by (bit_vector);
}

pub broadcast proof fn lemma_bit_and(a: u64, b: u64, i: u64)
    ensures
        #[trigger] bit64(a & b, i) == (bit64(a, i) && bit64(b, i)),
{
    assert(((a & b) & (1u64 << i) != 0) == ((a & (1u64 << i) != 0) && (b & (1u64 << i) != 0)))
        by (bit_vector);
}

pub broadcast proof fn lemma_bit_not(a: u64, i: u64)
    requires
        i < 64,
    ensures
        #[trigger] bit64(!a, i) == !bit64(a, i),
{
    assert(i < 64 ==> ((!a) & (1u64 << i) != 0) == !(a & (1u64 << i) != 0)) by (bit_vector);
}

pub broadcast proof fn lemma_bit_single(s: u64, i: u64)
    requires
        s < 64,
        i < 64,
    ensures
        #[trigger] bit64(1u64 << s, i) == (i == s),
{
    assert(s < 64 && i < 64 ==> ((1u64 << s) & (1u64 << i) != 0) == (i == s)) by (bit_vector);
}

pub broadcast proof fn lemma_bit_zero(i: u64)
    ensures
        !(#[trigger] bit64(0u64, i)),
{
    assert(0u64 & (1u64 << i) == 0) by (bit_vector);
}

/// Single-bit test on a plane, the shared exec primitive.
pub fn testbit(w: u64, sq: u8) -> (r: bool)
    requires
        sq < 64,
    ensures
        r == bit64(w, sq as u64),
{
    w & (1u64 << (sq as u64)) != 0
}

/// Fixed-width bit-vector capability: test, set and clear one bit, and
/// expand a word into its 64 booleans. One generic interface for every
/// plane width used in the system.
pub trait BitManipulatable: Sized {
    /// Whether bit `i` of the represented word is set.
    spec fn bit_read(&self, i: u64) -> bool;

    /// Get the bits as an array of size 64, least significant first.
    fn get_bits(&self) -> (r: Vec<bool>)
        ensures
            r@.len() == 64,
            forall|i: int| 0 <= i < 64 ==> r@[i] == self.bit_read(i as u64),
    ;

    /// Get a specific bit.
    fn get_bit(&self, bit: usize) -> (r: bool)
        requires
            bit < 64,
        ensures
            r == self.bit_read(bit as u64),
    ;

    /// Set a specific bit.
    fn set_bit(&mut self, bit: u8)
        requires
            bit < 64,
        ensures
            forall|i: u64| i < 64 ==> final (self).bit_read(i) == (i == bit
                || old(self).bit_read(i)),
    ;

    /// Clear a specific bit.
    fn clear_bit(&mut self, bit: u8)
        requires
            bit < 64,
        ensures
            forall|i: u64| i < 64 ==> final (self).bit_read(i) == (i != bit
                && old(self).bit_read(i)),
    ;
}

impl BitManipulatable for u64 {
    open spec fn bit_read(&self, i: u64) -> bool {
        bit64(*self, i)
    }

    fn get_bits(&self) -> (r: Vec<bool>)
        ensures
            r@.len() == 64,
            forall|i: int| 0 <= i < 64 ==> r@[i] == self.bit_read(i as u64),
    {
        let mut res: Vec<bool> = Vec::new();
        for i in 0..64u64
            invariant
                res@.len() == i,
                forall|j: int| 0 <= j < i ==> res@[j] == bit64(*self, j as u64),
        {
            res.push((*self & (1u64 << i)) > 0);
        }
        res
    }

    fn get_bit(&self, bit: usize) -> (r: bool)
        ensures
            r == self.bit_read(bit as u64),
    {
        (*self & (1u64 << (bit as u64))) > 0
    }

    fn set_bit(&mut self, bit: u8)
        ensures
            forall|i: u64| i < 64 ==> final (self).bit_read(i) == (i == bit
                || old(self).bit_read(i)),
    {
        *self |= 1u64 << (bit as u64);
        proof {
            broadcast use lemma_bit_or, lemma_bit_single;
        }
    }

    fn clear_bit(&mut self, bit: u8)
        ensures
            forall|i: u64| i < 64 ==> final (self).bit_read(i) == (i != bit
                && old(self).bit_read(i)),
    {
        *self &= !(1u64 << (bit as u64));
        proof {
            broadcast use lemma_bit_and, lemma_bit_not, lemma_bit_single;
        }
    }
}

} // verus!
