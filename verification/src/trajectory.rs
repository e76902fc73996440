use vstd::prelude::*;
use crate::curve::{Contact, Curve, Parameter};
use crate::length::functional_term;

verus! {

/// The curve on which the collision of index `i` is placed when the
/// trajectory is rebuilt from the minimising parameters: the inner curve for
/// even `i`, the outer curve for odd `i`.
pub open spec fn collision_curve(i: nat) -> Curve {
    if i % 2 == 0 {
        Curve::Inner
    } else {
        Curve::Outer
    }
}

/// The collision of index `i` of a rebuilt trajectory: its curve, evaluated
/// at the free parameter of the same index.
pub open spec fn collision(i: nat) -> Contact {
    Contact { curve: collision_curve(i), at: Parameter::Free(i as usize) }
}

/// The rebuilt trajectory with `n` collisions, in order. The fixed end
/// points are not part of it.
pub open spec fn rebuilt(n: nat) -> Seq<Contact> {
    Seq::new(n, |i: int| collision(i as nat))
}

/// How the rebuilt trajectory relates to the length functional over the
/// same `n` collisions. The functional reaches every collision but the
/// first on the curve where the rebuilt trajectory has it, and leaves every
/// collision but the last from that curve. It reaches the first collision
/// and leaves the last one on the other curve.
pub proof fn lemma_rebuilt_and_functional(n: nat, i: nat)
    requires
        i < n,
    ensures
        0 < i ==> functional_term(n, i).to.curve == collision_curve(i),
        i + 1 < n ==> functional_term(n, i + 1).from.curve == collision_curve(i),
        i == 0 ==> functional_term(n, i).to.curve == collision_curve(i).other(),
        i + 1 == n ==> functional_term(n, i + 1).from.curve == collision_curve(i).other(),
{
}

/// Returns the collision of index `i` of a rebuilt trajectory.
pub fn contact(i: usize) -> (c: Contact)
    ensures
        c == collision(i as nat),
{
    let curve = if i % 2 == 0 {
        Curve::Inner
    } else {
        Curve::Outer
    };
    Contact { curve, at: Parameter::Free(i) }
}

/// Lists the collisions of a rebuilt trajectory with `n` collisions.
pub fn contacts(n: usize) -> (v: Vec<Contact>)
    ensures
        v@ == rebuilt(n as nat),
{
    let mut v: Vec<Contact> = Vec::new();
    let mut i: usize = 0;
    while i < n
        invariant
            i <= n,
            v@.len() == i,
            forall|j: int| 0 <= j < i ==> v@[j] == collision(j as nat),
        decreases n - i,
    {
        v.push(contact(i));
        i = i + 1;
    }
    assert(v@ =~= rebuilt(n as nat));
    v
}

} // verus!
