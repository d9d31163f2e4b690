//! The coupling between two adjacent cells.

use crate::fixed::Fixed;
use crate::position::Position;
use vstd::prelude::*;

verus! {

/// The mean of two quantities, as the edge between two cells holds it.
pub open spec fn spec_average(a: Fixed, b: Fixed) -> Fixed {
    a.plus(b).over(Fixed { micros: 2_000_000 })
}

#[verifier::when_used_as_spec(spec_average)]
pub fn average(a: Fixed, b: Fixed) -> (r: Fixed)
    ensures
        r == spec_average(a, b),
{
    a.plus(b).over(Fixed::from_micros(2_000_000))
}

/// The coupling between two adjacent cells. Both quantities are derived from
/// the two cells in every tick; an edge carries nothing from tick to tick.
#[derive(Clone, Copy, Debug, PartialEq, Eq, Structural)]
pub struct Edge {
    /// Index of the core that the edge belongs to.
    pub core: usize,
    /// Position of one of the two cells that the edge joins.
    pub first: Position,
    /// Position of the other one.
    pub second: Position,
    pub reactivity: Fixed,
    pub temperature: Fixed,
}

impl Edge {
    pub open spec fn spec_new(core: usize, first: Position, second: Position) -> Edge {
        Edge {
            core,
            first,
            second,
            reactivity: Fixed::zero(),
            temperature: Fixed::zero(),
        }
    }

    /// An edge of core `core` between `first` and `second` with both
    /// quantities at zero.
    #[verifier::when_used_as_spec(spec_new)]
    pub fn new(core: usize, first: Position, second: Position) -> (r: Edge)
        ensures
            r == Self::spec_new(core, first, second),
    {
        Edge {
            core,
            first,
            second,
            reactivity: Fixed::zero(),
            temperature: Fixed::zero(),
        }
    }
}

/// The mean of two quantities does not depend on their order.
pub proof fn average_ignores_order(a: Fixed, b: Fixed)
    ensures
        average(a, b) == average(b, a),
{
}

} // verus!
