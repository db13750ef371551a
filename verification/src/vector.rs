//! The eager baseline: a fixed-size vector whose addition materializes its
//! result immediately. It exists for comparison with the lazy core in
//! [`crate::lazy`], which performs the same element-wise work without
//! intermediate vectors.

use vstd::prelude::*;

verus! {

broadcast use vstd::array::group_array_axioms;

/// A fixed-size vector of `M` elements with eager, allocating addition.
#[derive(Debug, Clone, Copy)]
pub struct Vector<const M: usize> {
    pub elements: [i64; M],
}

impl<const M: usize> View for Vector<M> {
    type V = Seq<i64>;

    open spec fn view(&self) -> Seq<i64> {
        self.elements@
    }
}

impl<const M: usize> Vector<M> {
    /// A vector with every element set to the additive identity.
    pub fn zeros() -> (v: Vector<M>)
        ensures
            forall|i: int| 0 <= i < M ==> v@[i] == 0i64,
    {
        Vector { elements: [0i64; M] }
    }

    /// A vector with every element set to the multiplicative identity.
    pub fn ones() -> (v: Vector<M>)
        ensures
            forall|i: int| 0 <= i < M ==> v@[i] == 1i64,
    {
        Vector { elements: [1i64; M] }
    }

    /// Eager element-wise addition: materializes the sum in a fresh vector.
    pub fn add(self, other: Vector<M>) -> (v: Vector<M>)
        requires
            forall|i: int|
                0 <= i < M ==> i64::MIN <= #[trigger] (self@[i] + other@[i]) <= i64::MAX,
        ensures
            forall|i: int| 0 <= i < M ==> v@[i] == self@[i] + other@[i],
    {
        let mut v: Vector<M> = Vector::zeros();
        for i in 0..M
            invariant
                forall|j: int|
                    0 <= j < M ==> i64::MIN <= #[trigger] (self@[j] + other@[j]) <= i64::MAX,
                forall|j: int| 0 <= j < i ==> #[trigger] v@[j] == self@[j] + other@[j],
        {
            assert(i64::MIN <= self@[i as int] + other@[i as int] <= i64::MAX);
            let ghost v_pre = v;
            v.elements[i] = self.elements[i] + other.elements[i];
            proof {
                assert(forall|j: int| 0 <= j < i ==> #[trigger] v@[j] == v_pre@[j]);
            }
        }
        v
    }

    /// Eager in-place element-wise addition of `other` into `self`.
    pub fn add_assign(&mut self, other: Vector<M>)
        requires
            forall|i: int|
                0 <= i < M ==> i64::MIN <= #[trigger] (old(self)@[i] + other@[i]) <= i64::MAX,
        ensures
            forall|i: int|
                0 <= i < M ==> final(self)@[i] == old(self)@[i] + other@[i],
    {
        for i in 0..M
            invariant
                forall|j: int|
                    0 <= j < M ==> i64::MIN <= #[trigger] (old(self)@[j] + other@[j]) <= i64::MAX,
                forall|j: int| 0 <= j < i ==> self@[j] == old(self)@[j] + other@[j],
                forall|j: int| i <= j < M ==> self@[j] == old(self)@[j],
        {
            assert(i64::MIN <= old(self)@[i as int] + other@[i as int] <= i64::MAX);
            self.elements[i] = self.elements[i] + other.elements[i];
        }
    }
}

} // verus!
