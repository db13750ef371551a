//! The lazy core: an element-wise evaluation capability, a fixed-size vector
//! leaf, and a binary-addition node that composes two evaluables by reference.

use crate::vector::Vector;
use vstd::prelude::*;

verus! {

broadcast use vstd::array::group_array_axioms;

/// The capability at the heart of the lazy design: produce the value at one
/// element index without materializing a full vector.
///
/// Anything element-wise readable implements this — a concrete vector (a
/// leaf) or a composite node — so leaves and composites are interchangeable
/// wherever an element source is expected. `spec_eval` is the mathematical
/// value at an index; `wf` says that every such value fits in the element
/// type, which is what makes `eval` safe to run.
pub trait LazyElementEval<const N: usize> {
    /// The mathematical value of the element at index `i`.
    spec fn spec_eval(&self, i: int) -> int;

    /// Every element value of this evaluable fits in the element type.
    spec fn wf(&self) -> bool;

    /// Produce the element at `offset`. Pure: no side effects, no allocation,
    /// callable any number of times and in any order.
    fn eval(&self, offset: usize) -> (r: i64)
        requires
            self.wf(),
            offset < N,
        ensures
            r as int == self.spec_eval(offset as int),
    ;
}

/// A fixed-size vector that participates in lazy expressions as a leaf.
///
/// It owns `M` elements; reading an element never allocates, and the
/// destination form of it is mutated in place by [`SmartVector::add_assign`].
#[derive(Debug, Clone, Copy)]
pub struct SmartVector<const M: usize> {
    pub elements: [i64; M],
}

impl<const M: usize> View for SmartVector<M> {
    type V = Seq<i64>;

    open spec fn view(&self) -> Seq<i64> {
        self.elements@
    }
}

impl<const M: usize> SmartVector<M> {
    /// A vector with every element set to the additive identity.
    pub fn zeros() -> (v: SmartVector<M>)
        ensures
            forall|i: int| 0 <= i < M ==> v@[i] == 0i64,
    {
        SmartVector { elements: [0i64; M] }
    }

    /// A vector with every element set to the multiplicative identity.
    pub fn ones() -> (v: SmartVector<M>)
        ensures
            forall|i: int| 0 <= i < M ==> v@[i] == 1i64,
    {
        SmartVector { elements: [1i64; M] }
    }

    /// The sole evaluation trigger: for each index `i` in `0..M`, add
    /// `arg.eval(i)` into this vector's element `i`, in place. The expression
    /// tree is walked exactly once per index; nothing is allocated.
    pub fn add_assign<U: LazyElementEval<M>>(&mut self, arg: &U)
        requires
            arg.wf(),
            forall|i: int|
                0 <= i < M ==> i64::MIN <= #[trigger] (old(self)@[i] + arg.spec_eval(i))
                    <= i64::MAX,
        ensures
            forall|i: int|
                0 <= i < M ==> final(self)@[i] == old(self)@[i] + arg.spec_eval(i),
    {
        for i in 0..M
            invariant
                arg.wf(),
                forall|j: int|
                    0 <= j < M ==> i64::MIN <= #[trigger] (old(self)@[j] + arg.spec_eval(j))
                        <= i64::MAX,
                forall|j: int| 0 <= j < i ==> self@[j] == old(self)@[j] + arg.spec_eval(j),
                forall|j: int| i <= j < M ==> self@[j] == old(self)@[j],
        {
            assert(i64::MIN <= old(self)@[i as int] + arg.spec_eval(i as int) <= i64::MAX);
            let e = arg.eval(i);
            self.elements[i] = self.elements[i] + e;
        }
    }

    /// Combine this vector with any evaluable into a lazy sum node. Pure
    /// construction: nothing is evaluated, only the two borrows are stored.
    pub fn add<'a, 'b, U: LazyElementEval<M>>(&'a self, other: &'b U) -> (r: AddBinOp<
        'a,
        'b,
        SmartVector<M>,
        U,
        M,
    >)
        ensures
            r.left == self,
            r.right == other,
    {
        AddBinOp { left: self, right: other }
    }
}

impl<const M: usize> LazyElementEval<M> for SmartVector<M> {
    /// A leaf's value at `i` is simply its stored element.
    open spec fn spec_eval(&self, i: int) -> int {
        self@[i] as int
    }

    /// Stored elements always fit in the element type.
    open spec fn wf(&self) -> bool {
        true
    }

    fn eval(&self, offset: usize) -> (r: i64) {
        self.elements[offset]
    }
}

/// A binary-addition expression node: a transient, non-owning combination of
/// two evaluables by borrowed reference. It holds nothing beyond the two
/// borrows, so building a tree of any depth allocates nothing; it must not
/// outlive either operand, which the borrows themselves enforce.
pub struct AddBinOp<'a, 'b, Left, Right, const N: usize> where
    Left: LazyElementEval<N>,
    Right: LazyElementEval<N>,
{
    pub left: &'a Left,
    pub right: &'b Right,
}

impl<'a, 'b, Left, Right, const N: usize> LazyElementEval<N> for AddBinOp<
    'a,
    'b,
    Left,
    Right,
    N,
> where Left: LazyElementEval<N>, Right: LazyElementEval<N> {
    /// A node's value at `i` is the sum of its operands' values at `i`,
    /// left operand first.
    open spec fn spec_eval(&self, i: int) -> int {
        self.left.spec_eval(i) + self.right.spec_eval(i)
    }

    /// Both operands are well formed, and every sum the node produces fits
    /// in the element type.
    open spec fn wf(&self) -> bool {
        &&& self.left.wf()
        &&& self.right.wf()
        &&& forall|i: int|
            0 <= i < N ==> i64::MIN <= #[trigger] self.spec_eval(i) <= i64::MAX
    }

    fn eval(&self, offset: usize) -> (r: i64) {
        assert(i64::MIN <= self.spec_eval(offset as int) <= i64::MAX);
        self.left.eval(offset) + self.right.eval(offset)
    }
}

impl<'a, 'b, Left, Right, const N: usize> AddBinOp<'a, 'b, Left, Right, N> where
    Left: LazyElementEval<N>,
    Right: LazyElementEval<N>,
{
    /// Combine this node with any evaluable into a deeper lazy sum node, so
    /// trees of arbitrary shape compose without materializing anything.
    pub fn add<'c, 'd, U: LazyElementEval<N>>(&'c self, other: &'d U) -> (r: AddBinOp<
        'c,
        'd,
        AddBinOp<'a, 'b, Left, Right, N>,
        U,
        N,
    >)
        ensures
            r.left == self,
            r.right == other,
    {
        AddBinOp { left: self, right: other }
    }
}

/// A node evaluates to the element-wise sum of its operands: at every valid
/// index, its value is its left operand's value plus its right operand's
/// value. Together with the contract of `eval`, this is the running
/// behaviour of a node as well as its mathematical one.
pub proof fn lemma_node_eval<Left: LazyElementEval<N>, Right: LazyElementEval<N>, const N: usize>(
    node: &AddBinOp<Left, Right, N>,
    i: int,
)
    requires
        0 <= i < N,
    ensures
        node.spec_eval(i) == node.left.spec_eval(i) + node.right.spec_eval(i),
{
}

/// Composition preserves associativity of addition: a grouped tree
/// `(a + b) + (c + d)` and a chained tree `a + (b + (c + d))` built from the
/// same four operands evaluate identically at every index, and both equal
/// the flat four-way sum of their operands' values.
pub proof fn lemma_composition_associative<
    A: LazyElementEval<N>,
    B: LazyElementEval<N>,
    C: LazyElementEval<N>,
    D: LazyElementEval<N>,
    const N: usize,
>(
    grouped: &AddBinOp<AddBinOp<A, B, N>, AddBinOp<C, D, N>, N>,
    chained: &AddBinOp<A, AddBinOp<B, AddBinOp<C, D, N>, N>, N>,
    i: int,
)
    requires
        grouped.left.left == chained.left,
        grouped.left.right == chained.right.left,
        grouped.right.left == chained.right.right.left,
        grouped.right.right == chained.right.right.right,
    ensures
        grouped.spec_eval(i) == chained.spec_eval(i),
        grouped.spec_eval(i) == grouped.left.left.spec_eval(i) + grouped.left.right.spec_eval(i)
            + grouped.right.left.spec_eval(i) + grouped.right.right.spec_eval(i),
{
}

/// Composition preserves commutativity of addition: nodes built from the
/// same two operands in either order evaluate identically at every index.
pub proof fn lemma_composition_commutative<
    A: LazyElementEval<N>,
    B: LazyElementEval<N>,
    const N: usize,
>(ab: &AddBinOp<A, B, N>, ba: &AddBinOp<B, A, N>, i: int)
    requires
        ab.left == ba.right,
        ab.right == ba.left,
    ensures
        ab.spec_eval(i) == ba.spec_eval(i),
{
}

/// The lazy evaluation agrees with the eager baseline: a node over leaves
/// whose elements match two eager vectors evaluates, at every index, to the
/// element that the eager sum of those vectors stores there. The premise on
/// `sum` is exactly what `Vector::add` ensures.
pub proof fn lemma_lazy_matches_eager<const M: usize>(
    node: &AddBinOp<SmartVector<M>, SmartVector<M>, M>,
    a: Vector<M>,
    b: Vector<M>,
    sum: Vector<M>,
    i: int,
)
    requires
        0 <= i < M,
        node.left@ == a@,
        node.right@ == b@,
        forall|j: int| 0 <= j < M ==> #[trigger] sum@[j] == a@[j] + b@[j],
    ensures
        node.spec_eval(i) == sum@[i],
{
}

/// Accumulation respects evaluation: two destinations that start equal and
/// each gain their expression's value at every index — which is what one
/// `SmartVector::add_assign` does — end equal whenever the two expressions
/// evaluate alike at every index, however differently their trees are shaped.
pub proof fn lemma_accumulate_respects_evaluation<
    U1: LazyElementEval<M>,
    U2: LazyElementEval<M>,
    const M: usize,
>(
    before: Seq<i64>,
    after1: Seq<i64>,
    after2: Seq<i64>,
    e1: &U1,
    e2: &U2,
)
    requires
        after1.len() == M,
        after2.len() == M,
        forall|i: int| 0 <= i < M ==> after1[i] == before[i] + e1.spec_eval(i),
        forall|i: int| 0 <= i < M ==> after2[i] == before[i] + e2.spec_eval(i),
        forall|i: int| 0 <= i < M ==> e1.spec_eval(i) == e2.spec_eval(i),
    ensures
        after1 == after2,
{
    assert(after1 =~= after2);
}

/// Accumulation is additive and repeatable: if an element starts at the
/// additive identity and each of `k` steps adds the same expression value
/// `delta` — which is what one `SmartVector::add_assign` of an unchanged
/// expression does to each element — then after `k` steps the element holds
/// `k * delta`. `history` records the element's value before and after each
/// step.
pub proof fn lemma_accumulate_repeatable(history: Seq<int>, delta: int, k: nat)
    requires
        history.len() == k + 1,
        history[0] == 0,
        forall|j: int| 0 <= j < k ==> #[trigger] history[j + 1] == history[j] + delta,
    ensures
        history[k as int] == k * delta,
    decreases k,
{
    if k > 0 {
        let prefix = history.take(k as int);
        lemma_accumulate_repeatable(prefix, delta, (k - 1) as nat);
        assert((k - 1) * delta + delta == k * delta) by (nonlinear_arith);
    }
}

} // verus!
