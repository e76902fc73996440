use vstd::prelude::*;

verus! {

/// One of the two nested curves between which the particle bounces.
#[derive(Clone, Copy, Debug, PartialEq, Eq, Structural)]
pub enum Curve {
    /// The outer curve moved along the direction field by the wall thickness.
    Inner,
    /// The boundary curve supplied by the caller.
    Outer,
}

impl Curve {
    /// The other curve of the pair.
    pub open spec fn other(self) -> Curve {
        match self {
            Curve::Inner => Curve::Outer,
            Curve::Outer => Curve::Inner,
        }
    }

    /// Returns the other curve of the pair.
    pub fn opposite(self) -> (c: Curve)
        ensures
            c == self.other(),
    {
        match self {
            Curve::Inner => Curve::Outer,
            Curve::Outer => Curve::Inner,
        }
    }
}

/// The curve parameter at which a contact is evaluated.
#[derive(Clone, Copy, Debug, PartialEq, Eq, Structural)]
pub enum Parameter {
    /// The fixed parameter at which the trajectory enters.
    Initial,
    /// The free parameter of the intermediate collision with this index.
    Free(usize),
    /// The fixed parameter at which the trajectory leaves.
    Final,
}

/// A point of the trajectory: a curve evaluated at a parameter.
#[derive(Clone, Copy, Debug, PartialEq, Eq, Structural)]
pub struct Contact {
    pub curve: Curve,
    pub at: Parameter,
}

/// A straight piece of the trajectory between two contacts.
#[derive(Clone, Copy, Debug, PartialEq, Eq, Structural)]
pub struct Segment {
    pub from: Contact,
    pub to: Contact,
}

} // verus!
