use vstd::prelude::*;
use crate::curve::{Contact, Curve, Parameter, Segment};

verus! {

/// The segment of index `k` of the alternating length functional over `n`
/// intermediate collisions, for `0 <= k <= n`.
///
/// The opening segment runs from the inner curve at the entry to the outer
/// curve at the first collision. Between collisions `i` and `i + 1` the
/// segment leaves the inner curve for the outer one when `i` is even, and
/// the outer curve for the inner one when `i` is odd. The closing segment
/// runs from the last collision to the exit, inner to outer for even `n` and
/// outer to inner for odd `n`. Without collisions the single segment joins
/// the inner curve at the entry to the outer curve at the exit.
pub open spec fn functional_term(n: nat, k: nat) -> Segment
    recommends
        k <= n,
{
    if k == 0 {
        Segment {
            from: Contact { curve: Curve::Inner, at: Parameter::Initial },
            to: Contact {
                curve: Curve::Outer,
                at: if n == 0 {
                    Parameter::Final
                } else {
                    Parameter::Free(0)
                },
            },
        }
    } else if k < n {
        if (k - 1) % 2 == 0 {
            Segment {
                from: Contact { curve: Curve::Inner, at: Parameter::Free((k - 1) as usize) },
                to: Contact { curve: Curve::Outer, at: Parameter::Free(k as usize) },
            }
        } else {
            Segment {
                from: Contact { curve: Curve::Outer, at: Parameter::Free((k - 1) as usize) },
                to: Contact { curve: Curve::Inner, at: Parameter::Free(k as usize) },
            }
        }
    } else {
        if n % 2 == 0 {
            Segment {
                from: Contact { curve: Curve::Inner, at: Parameter::Free((n - 1) as usize) },
                to: Contact { curve: Curve::Outer, at: Parameter::Final },
            }
        } else {
            Segment {
                from: Contact { curve: Curve::Outer, at: Parameter::Free((n - 1) as usize) },
                to: Contact { curve: Curve::Inner, at: Parameter::Final },
            }
        }
    }
}

/// The alternating length functional over `n` intermediate collisions, as
/// the sequence of the `n + 1` segments whose lengths it adds up.
pub open spec fn functional(n: nat) -> Seq<Segment> {
    Seq::new(n + 1, |k: int| functional_term(n, k as nat))
}

/// The sum, in exact arithmetic, of the lengths of the first `count`
/// segments of the functional over `n` collisions, where `measure` gives
/// the length of a segment.
pub open spec fn partial_length(n: nat, count: nat, measure: spec_fn(Segment) -> real) -> real
    decreases count,
{
    if count == 0 {
        0real
    } else {
        partial_length(n, (count - 1) as nat, measure) + measure(
            functional_term(n, (count - 1) as nat),
        )
    }
}

/// The value of the functional over `n` collisions in exact arithmetic: the
/// lengths of its `n + 1` segments, added in the order of the trajectory.
pub open spec fn path_length(n: nat, measure: spec_fn(Segment) -> real) -> real {
    partial_length(n, n + 1, measure)
}

/// Without collisions the path is the single segment from the inner curve
/// at the entry to the outer curve at the exit, and its length is the
/// length of that segment.
pub proof fn lemma_direct_path(measure: spec_fn(Segment) -> real)
    ensures
        functional(0) =~= seq![
            Segment {
                from: Contact { curve: Curve::Inner, at: Parameter::Initial },
                to: Contact { curve: Curve::Outer, at: Parameter::Final },
            },
        ],
        path_length(0, measure) == measure(
            Segment {
                from: Contact { curve: Curve::Inner, at: Parameter::Initial },
                to: Contact { curve: Curve::Outer, at: Parameter::Final },
            },
        ),
{
    reveal_with_fuel(partial_length, 2);
}

/// The parameter that stands at position `j` along a trajectory with `n`
/// collisions: the entry before the first collision, the exit after the
/// last one.
pub open spec fn station(n: nat, j: int) -> Parameter {
    if j < 0 {
        Parameter::Initial
    } else if j >= n {
        Parameter::Final
    } else {
        Parameter::Free(j as usize)
    }
}

/// Whether segment `k` of the functional over `n` collisions leaves from
/// the inner curve.
pub open spec fn leaves_inner(n: nat, k: nat) -> bool {
    k == 0 || (k < n && k % 2 == 1) || (k == n && n % 2 == 0)
}

/// Segment `k` runs from station `k - 1` to station `k`, and it always
/// crosses from one curve to the other.
pub proof fn lemma_term_crosses(n: nat, k: nat)
    requires
        k <= n,
    ensures
        functional_term(n, k).from.at == station(n, k - 1),
        functional_term(n, k).to.at == station(n, k as int),
        functional_term(n, k).from.curve == (if leaves_inner(n, k) {
            Curve::Inner
        } else {
            Curve::Outer
        }),
        functional_term(n, k).to.curve == functional_term(n, k).from.curve.other(),
{
}

/// Whether `order` lists the indices below `n`, each of them once.
pub open spec fn permutes(order: Seq<int>, n: nat) -> bool {
    &&& order.len() == n
    &&& forall|i: int| 0 <= i < n ==> 0 <= #[trigger] order[i] < n
    &&& forall|i: int, j: int| 0 <= i < j < n ==> order[i] != order[j]
}

/// The parameter that `p` reads once the candidate parameters have been
/// rearranged so that entry `i` holds what entry `order[i]` held. The two
/// fixed parameters stay in place.
pub open spec fn rearranged(p: Parameter, order: Seq<int>) -> Parameter {
    match p {
        Parameter::Free(i) => if i < order.len() {
            Parameter::Free(order[i as int] as usize)
        } else {
            p
        },
        _ => p,
    }
}

/// The segment that `s` measures once the candidate parameters have been
/// rearranged by `order`.
pub open spec fn rearranged_segment(s: Segment, order: Seq<int>) -> Segment {
    Segment {
        from: Contact { curve: s.from.curve, at: rearranged(s.from.at, order) },
        to: Contact { curve: s.to.curve, at: rearranged(s.to.at, order) },
    }
}

/// The first index from `start` on that `order` moves, when it keeps every
/// index below `start` in place and moves some index.
proof fn lemma_first_moved(order: Seq<int>, n: nat, start: int) -> (i: int)
    requires
        permutes(order, n),
        0 <= start,
        forall|m: int| 0 <= m < start ==> order[m] == m,
        exists|k: int| 0 <= k < n && order[k] != k,
    ensures
        start <= i < n,
        order[i] > i,
        forall|m: int| 0 <= m < i ==> order[m] == m,
    decreases n - start,
{
    let k = choose|k: int| 0 <= k < n && order[k] != k;
    assert(start <= k);
    if order[start] != start {
        if order[start] < start {
            assert(order[order[start]] == order[start]);
        }
        start
    } else {
        lemma_first_moved(order, n, start + 1)
    }
}

/// The functional is invariant under no rearrangement of its parameters but
/// the one that leaves them all in place: after any other, one of the
/// segments that are measured is not a segment of the functional. Which
/// segments are measured fixes the length for every pair of curves, so the
/// length is not symmetric in the parameters.
pub proof fn lemma_no_rearrangement_keeps_functional(n: nat, order: Seq<int>)
    requires
        n < usize::MAX,
        permutes(order, n),
        exists|k: int| 0 <= k < n && order[k] != k,
    ensures
        exists|k: int|
            0 <= k <= n && !functional(n).contains(
                rearranged_segment(#[trigger] functional(n)[k], order),
            ),
{
    let i = lemma_first_moved(order, n, 0);
    let moved = rearranged_segment(functional(n)[i], order);
    lemma_term_crosses(n, i as nat);
    assert(moved.to.at == Parameter::Free(order[i] as usize));
    assert(i > 0 ==> moved.from.at == Parameter::Free((i - 1) as usize)) by {
        if i > 0 {
            assert(order[i - 1] == i - 1);
        }
    }
    assert forall|m: int| 0 <= m < functional(n).len() implies functional(n)[m] != moved by {
        lemma_term_crosses(n, m as nat);
    }
}

/// Computes segment `k` of the length functional over `n` collisions.
pub fn term(n: usize, k: usize) -> (s: Segment)
    requires
        k <= n,
    ensures
        s == functional_term(n as nat, k as nat),
{
    let inner_first = k == 0 || (if k < n {
        k % 2 == 1
    } else {
        n % 2 == 0
    });
    let first = if inner_first {
        Curve::Inner
    } else {
        Curve::Outer
    };
    let from_at = if k == 0 {
        Parameter::Initial
    } else {
        Parameter::Free(k - 1)
    };
    let to_at = if k == n {
        Parameter::Final
    } else {
        Parameter::Free(k)
    };
    proof {
        lemma_term_crosses(n as nat, k as nat);
    }
    Segment {
        from: Contact { curve: first, at: from_at },
        to: Contact { curve: first.opposite(), at: to_at },
    }
}

/// Lists the segments of the length functional over `n` collisions, in the
/// order in which the trajectory runs through them.
pub fn terms(n: usize) -> (v: Vec<Segment>)
    requires
        n < usize::MAX,
    ensures
        v@ == functional(n as nat),
{
    let mut v: Vec<Segment> = Vec::new();
    let mut k: usize = 0;
    while k <= n
        invariant
            n < usize::MAX,
            k <= n + 1,
            v@.len() == k,
            forall|j: int| 0 <= j < k ==> v@[j] == functional_term(n as nat, j as nat),
        decreases n + 1 - k,
    {
        v.push(term(n, k));
        k = k + 1;
    }
    assert(v@ =~= functional(n as nat));
    v
}

} // verus!
