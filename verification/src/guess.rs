use vstd::prelude::*;

verus! {

/// A point of the parameter interval, given as the share of the interval
/// that lies before it: the point is
/// `s_initial + numerator * (s_final - s_initial) / denominator`.
#[derive(Clone, Copy, Debug, PartialEq, Eq, Structural)]
pub struct Fraction {
    pub numerator: usize,
    pub denominator: usize,
}

/// The interior point of index `i` when the interval is cut into `n + 1`
/// equal parts: `i + 1` parts out of `n + 1` lie before it.
pub open spec fn partition_point(n: nat, i: nat) -> Fraction
    recommends
        i < n,
{
    Fraction { numerator: (i + 1) as usize, denominator: (n + 1) as usize }
}

/// The starting parameters for `n` intermediate collisions: the `n` interior
/// points of the equipartition, in increasing order.
pub open spec fn partition(n: nat) -> Seq<Fraction> {
    Seq::new(n, |i: int| partition_point(n, i as nat))
}

impl Fraction {
    /// The point of the interval from `a` to `b` that this share denotes, in
    /// exact arithmetic.
    pub open spec fn point(self, a: real, b: real) -> real {
        a + (self.numerator as real) * (b - a) / (self.denominator as real)
    }
}

/// Every point of the equipartition lies strictly inside the interval: for
/// end points `a < b` and `n` collisions that a machine can count, the
/// point of index `i` is greater than `a` and less than `b`.
pub proof fn lemma_partition_strictly_inside(a: real, b: real, n: nat, i: nat)
    requires
        a < b,
        i < n < usize::MAX,
    ensures
        a < partition(n)[i as int].point(a, b) < b,
{
    let p = (i + 1) as real;
    let q = (n + 1) as real;
    assert(partition(n)[i as int].point(a, b) == a + p * (b - a) / q);
    assert(0real < p * (b - a) / q < b - a) by (nonlinear_arith)
        requires
            0real < p < q,
            a < b,
    ;
}

/// Lists the starting parameters for `n` intermediate collisions: one for
/// each collision, each strictly inside the interval. The list is empty
/// when there are no collisions.
pub fn weights(n: usize) -> (v: Vec<Fraction>)
    requires
        n < usize::MAX,
    ensures
        v@ == partition(n as nat),
        v@.len() == n,
        forall|i: int| 0 <= i < n ==> 0 < (#[trigger] v@[i]).numerator < v@[i].denominator,
        forall|i: int, a: real, b: real|
            0 <= i < n && a < b ==> a < #[trigger] v@[i].point(a, b) < b,
{
    let mut v: Vec<Fraction> = Vec::new();
    let mut i: usize = 0;
    while i < n
        invariant
            n < usize::MAX,
            i <= n,
            v@.len() == i,
            forall|j: int| 0 <= j < i ==> v@[j] == partition_point(n as nat, j as nat),
        decreases n - i,
    {
        v.push(Fraction { numerator: i + 1, denominator: n + 1 });
        i = i + 1;
    }
    assert(v@ =~= partition(n as nat));
    assert forall|i: int, a: real, b: real| 0 <= i < n && a < b implies a < #[trigger] v@[i].point(
        a,
        b,
    ) < b by {
        lemma_partition_strictly_inside(a, b, n as nat, i as nat);
    }
    v
}

} // verus!
