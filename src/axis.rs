use vstd::prelude::*;

verus! {

/// One of the three positions of a three-component value.
#[derive(Clone, Copy, Debug, PartialEq, Eq)]
pub enum Axis {
    X,
    Y,
    Z,
}

/// The position that index `i` names, for `i < 3`.
pub open spec fn axis_at(i: int) -> Axis
    recommends
        0 <= i < 3,
{
    if i == 0 {
        Axis::X
    } else if i == 1 {
        Axis::Y
    } else {
        Axis::Z
    }
}

impl Axis {
    /// The index of this position: 0, 1 or 2.
    pub open spec fn spec_index(self) -> nat {
        match self {
            Axis::X => 0,
            Axis::Y => 1,
            Axis::Z => 2,
        }
    }

    /// The position named by index `i`; `None` for any index outside 0..=2,
    /// which a caller must treat as a contract violation, never as a default.
    pub fn from_index(i: usize) -> (r: Option<Axis>)
        ensures
            r == (if i < 3 { Some(axis_at(i as int)) } else { None::<Axis> }),
            r matches Some(a) ==> a.spec_index() == i,
    {
        match i {
            0 => Some(Axis::X),
            1 => Some(Axis::Y),
            2 => Some(Axis::Z),
            _ => None,
        }
    }

    /// The index of this position.
    pub fn index(self) -> (r: usize)
        ensures
            r == self.spec_index(),
            axis_at(r as int) == self,
    {
        match self {
            Axis::X => 0,
            Axis::Y => 1,
            Axis::Z => 2,
        }
    }
}

} // verus!
