use vstd::prelude::*;
use crate::curve::{Contact, Segment};
use crate::guess::{partition, weights, Fraction};
use crate::length::{functional, terms};
use crate::trajectory::{contacts, rebuilt};

verus! {

/// Why a trajectory could not be computed.
#[derive(Clone, Copy, Debug, PartialEq, Eq, Structural)]
pub enum BilliardError {
    /// The number of intermediate collisions is negative.
    NegativeCollisions,
    /// The direction field vanished where the inner curve was evaluated.
    Singularity,
    /// The minimiser handed back parameters that cannot be used.
    OptimizationFailure,
}

/// What the caller observed of one run of the minimiser.
#[derive(Clone, Copy, Debug, PartialEq, Eq, Structural)]
pub struct Outcome {
    /// How many parameters the minimiser handed back.
    pub dimension: usize,
    /// Whether each of those parameters is a finite number.
    pub finite: bool,
    /// Whether the direction field vanished at a parameter that was probed.
    pub singular: bool,
    /// Whether the path through the returned parameters is no longer than
    /// the path through the starting parameters.
    pub no_longer: bool,
}

/// The count of intermediate collisions of a billiard trajectory, known to
/// be valid, together with the rules that depend on it.
#[derive(Clone, Copy, Debug)]
pub struct Billiard {
    number_collisions: i64,
}

impl Billiard {
    #[verifier::type_invariant]
    spec fn well_formed(self) -> bool {
        0 <= self.number_collisions < usize::MAX
    }

    /// The number of intermediate collisions, the two end points not
    /// counted.
    pub closed spec fn collisions(self) -> nat {
        self.number_collisions as nat
    }

    /// The failure that an outcome of the minimiser amounts to, if any. A
    /// vanished direction field comes first, since nothing computed after
    /// it can be relied on. Otherwise the run fails when the number of
    /// parameters is not the number of collisions, when a parameter is not
    /// finite, or when the path has become longer.
    pub open spec fn fault(self, outcome: Outcome) -> Option<BilliardError> {
        if outcome.singular {
            Some(BilliardError::Singularity)
        } else if outcome.dimension != self.collisions() || !outcome.finite || !outcome.no_longer {
            Some(BilliardError::OptimizationFailure)
        } else {
            None
        }
    }

    /// Accepts a count of intermediate collisions that is not negative, and
    /// rejects a negative one. The count has to leave room in a `usize` for
    /// one segment more than there are collisions.
    pub fn new(number_collisions: i64) -> (r: Result<Billiard, BilliardError>)
        requires
            number_collisions < usize::MAX,
        ensures
            match r {
                Ok(b) => 0 <= number_collisions && b.collisions() == number_collisions,
                Err(e) => number_collisions < 0 && e == BilliardError::NegativeCollisions,
            },
    {
        if number_collisions < 0 {
            Err(BilliardError::NegativeCollisions)
        } else {
            Ok(Billiard { number_collisions })
        }
    }

    /// Returns the number of intermediate collisions.
    pub fn num_collisions(&self) -> (n: i64)
        ensures
            n == self.collisions(),
    {
        proof {
            use_type_invariant(self);
        }
        self.number_collisions
    }

    /// Lists the starting parameters of the minimisation: the interior
    /// points of the equipartition of the parameter interval, one for each
    /// collision, each strictly inside the interval.
    pub fn initial_guess(&self) -> (v: Vec<Fraction>)
        ensures
            v@ == partition(self.collisions()),
            v@.len() == self.collisions(),
            forall|i: int, a: real, b: real|
                0 <= i < v@.len() && a < b ==> a < #[trigger] v@[i].point(a, b) < b,
    {
        proof {
            use_type_invariant(self);
        }
        weights(self.number_collisions as usize)
    }

    /// Lists the segments whose lengths add up to the objective of the
    /// minimisation.
    pub fn length_terms(&self) -> (v: Vec<Segment>)
        ensures
            v@ == functional(self.collisions()),
            v@.len() == self.collisions() + 1,
    {
        proof {
            use_type_invariant(self);
        }
        terms(self.number_collisions as usize)
    }

    /// Decides what becomes of a run of the minimiser. A usable outcome
    /// yields the collisions of the trajectory, in order: the curve of each
    /// and the parameter at which to evaluate it. Any other outcome yields
    /// the failure that it amounts to, and no trajectory.
    pub fn trajectory(&self, outcome: &Outcome) -> (r: Result<Vec<Contact>, BilliardError>)
        ensures
            match r {
                Ok(v) => self.fault(*outcome) is None && v@ == rebuilt(self.collisions()),
                Err(e) => self.fault(*outcome) == Some(e),
            },
            outcome.singular ==> r == Err::<Vec<Contact>, BilliardError>(
                BilliardError::Singularity,
            ),
            r is Ok ==> outcome.no_longer,
    {
        proof {
            use_type_invariant(self);
        }
        if outcome.singular {
            Err(BilliardError::Singularity)
        } else if outcome.dimension != self.number_collisions as usize || !outcome.finite
            || !outcome.no_longer {
            Err(BilliardError::OptimizationFailure)
        } else {
            Ok(contacts(outcome.dimension))
        }
    }
}

} // verus!
