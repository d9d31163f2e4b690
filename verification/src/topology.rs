//! The index of a core: which cell stands where, and which edge joins two
//! adjacent positions.

use crate::position::Position;
use std::collections::HashMap;
use vstd::prelude::*;
use vstd::std_specs::hash::group_hash_axioms;

verus! {

broadcast use group_hash_axioms;

/// Why a cell or an edge could not be entered.
#[derive(Clone, Copy, Debug, PartialEq, Eq, Structural)]
pub enum TopologyError {
    /// The core that the cell or edge names does not exist.
    UnknownCore,
    /// The core already has a cell at the position, or an edge between the
    /// two positions.
    Occupied,
    /// The two positions are not one step apart along one axis.
    NotAdjacent,
}

/// Which of a core's two edge tables holds an edge.
#[derive(Clone, Copy, Debug, PartialEq, Eq, Structural)]
enum Axis {
    Horizontal,
    Vertical,
}

/// The number under which the tables hold a position.
spec fn spec_key(p: Position) -> u64 {
    ((p.x - i32::MIN) * 0x1_0000_0000 + (p.y - i32::MIN)) as u64
}

/// No two positions share a key.
proof fn keys_are_distinct(p: Position, q: Position)
    requires
        spec_key(p) == spec_key(q),
    ensures
        p == q,
{
}

fn key(p: Position) -> (k: u64)
    ensures
        k == spec_key(p),
{
    let x: u64 = (p.x as i64 - i32::MIN as i64) as u64;
    let y: u64 = (p.y as i64 - i32::MIN as i64) as u64;
    x * 0x1_0000_0000 + y
}

/// The table and the key under which the edge between `a` and `b` stands:
/// the key of the left one of the two for a horizontal edge, of the lower
/// one for a vertical edge. Positions that are not adjacent have none.
spec fn spec_slot(a: Position, b: Position) -> Option<(Axis, u64)> {
    if a.y == b.y && b.x - a.x == 1 {
        Some((Axis::Horizontal, spec_key(a)))
    } else if a.y == b.y && a.x - b.x == 1 {
        Some((Axis::Horizontal, spec_key(b)))
    } else if a.x == b.x && b.y - a.y == 1 {
        Some((Axis::Vertical, spec_key(a)))
    } else if a.x == b.x && a.y - b.y == 1 {
        Some((Axis::Vertical, spec_key(b)))
    } else {
        None
    }
}

/// No two pairs of adjacent positions share a slot, but for a pair and the
/// same pair turned round.
proof fn slots_are_distinct(a: Position, b: Position, p: Position, q: Position)
    requires
        spec_slot(a, b) is Some,
        spec_slot(a, b) == spec_slot(p, q),
    ensures
        (p == a && q == b) || (p == b && q == a),
{
    if a.y == b.y {
        keys_are_distinct(if b.x - a.x == 1 { a } else { b }, if q.x - p.x == 1 { p } else { q });
    } else {
        keys_are_distinct(if b.y - a.y == 1 { a } else { b }, if q.y - p.y == 1 { p } else { q });
    }
}

fn slot(a: Position, b: Position) -> (r: Option<(Axis, u64)>)
    ensures
        r == spec_slot(a, b),
{
    let dx: i64 = b.x as i64 - a.x as i64;
    let dy: i64 = b.y as i64 - a.y as i64;
    if dy == 0 && dx == 1 {
        Some((Axis::Horizontal, key(a)))
    } else if dy == 0 && dx == -1 {
        Some((Axis::Horizontal, key(b)))
    } else if dx == 0 && dy == 1 {
        Some((Axis::Vertical, key(a)))
    } else if dx == 0 && dy == -1 {
        Some((Axis::Vertical, key(b)))
    } else {
        None
    }
}

/// The index of one core: which cell stands at a position, and which edge
/// joins two adjacent positions.
///
/// Cells and edges are named by their indices in the reactor's lists. The
/// index does not check that those indices lead anywhere.
#[derive(Debug)]
pub struct ReactorCore {
    cells_by_pos: HashMap<u64, usize>,
    horizontal_edges: HashMap<u64, usize>,
    vertical_edges: HashMap<u64, usize>,
}

impl ReactorCore {
    /// The cell entered at `pos`, if any.
    pub closed spec fn spec_cell_at(&self, pos: Position) -> Option<usize> {
        if self.cells_by_pos@.contains_key(spec_key(pos)) {
            Some(self.cells_by_pos@[spec_key(pos)])
        } else {
            None
        }
    }

    /// The edge entered between `a` and `b`, if any.
    pub closed spec fn spec_find_edge(&self, a: Position, b: Position) -> Option<usize> {
        match spec_slot(a, b) {
            Some((Axis::Horizontal, k)) => if self.horizontal_edges@.contains_key(k) {
                Some(self.horizontal_edges@[k])
            } else {
                None
            },
            Some((Axis::Vertical, k)) => if self.vertical_edges@.contains_key(k) {
                Some(self.vertical_edges@[k])
            } else {
                None
            },
            None => None,
        }
    }

    /// Whether this index is `before` with `cell` entered at `pos`, or with
    /// nothing there where `cell` is `None`.
    pub open spec fn has_cell_changed(
        &self,
        before: ReactorCore,
        pos: Position,
        cell: Option<usize>,
    ) -> bool {
        &&& forall|p: Position| #[trigger]
            self.spec_cell_at(p) == (if p == pos {
                cell
            } else {
                before.spec_cell_at(p)
            })
        &&& forall|a: Position, b: Position| #[trigger]
            self.spec_find_edge(a, b) == before.spec_find_edge(a, b)
    }

    /// Whether this index is `before` with `edge` entered between `a` and
    /// `b`, or with nothing there where `edge` is `None`.
    pub open spec fn has_edge_changed(
        &self,
        before: ReactorCore,
        a: Position,
        b: Position,
        edge: Option<usize>,
    ) -> bool {
        &&& forall|p: Position, q: Position| #[trigger]
            self.spec_find_edge(p, q) == (if (p == a && q == b) || (p == b && q == a) {
                edge
            } else {
                before.spec_find_edge(p, q)
            })
        &&& forall|p: Position| #[trigger] self.spec_cell_at(p) == before.spec_cell_at(p)
    }

    /// Whether this index holds what `before` holds.
    pub open spec fn holds_the_same(&self, before: ReactorCore) -> bool {
        &&& forall|p: Position| #[trigger] self.spec_cell_at(p) == before.spec_cell_at(p)
        &&& forall|a: Position, b: Position| #[trigger]
            self.spec_find_edge(a, b) == before.spec_find_edge(a, b)
    }

    /// Whether the index holds no cell and no edge.
    pub open spec fn is_empty(&self) -> bool {
        &&& forall|p: Position| self.spec_cell_at(p) is None
        &&& forall|a: Position, b: Position| self.spec_find_edge(a, b) is None
    }

    /// An index without cells or edges.
    pub fn new() -> (r: ReactorCore)
        ensures
            r.is_empty(),
    {
        ReactorCore {
            cells_by_pos: HashMap::new(),
            horizontal_edges: HashMap::new(),
            vertical_edges: HashMap::new(),
        }
    }

    /// The cell entered at `pos`, if any.
    pub fn cell_at(&self, pos: Position) -> (r: Option<usize>)
        ensures
            r == self.spec_cell_at(pos),
    {
        let k = key(pos);
        match self.cells_by_pos.get(&k) {
            Some(cell) => Some(*cell),
            None => None,
        }
    }

    /// The edge entered between `a` and `b`, if any. The order of the two
    /// positions makes no difference.
    pub fn find_edge(&self, a: Position, b: Position) -> (r: Option<usize>)
        ensures
            r == self.spec_find_edge(a, b),
            r == self.spec_find_edge(b, a),
    {
        match slot(a, b) {
            Some((Axis::Horizontal, k)) => match self.horizontal_edges.get(&k) {
                Some(edge) => Some(*edge),
                None => None,
            },
            Some((Axis::Vertical, k)) => match self.vertical_edges.get(&k) {
                Some(edge) => Some(*edge),
                None => None,
            },
            None => None,
        }
    }

    /// Enters `cell` at `pos` and returns the cell that stood there before.
    pub fn insert_cell(&mut self, pos: Position, cell: usize) -> (previous: Option<usize>)
        ensures
            previous == old(self).spec_cell_at(pos),
            final(self).has_cell_changed(*old(self), pos, Some(cell)),
    {
        proof {
            assert forall|p: Position| spec_key(p) == spec_key(pos) implies p == pos by {
                keys_are_distinct(p, pos);
            }
        }
        self.cells_by_pos.insert(key(pos), cell)
    }

    /// Takes the cell at `pos` out of the index and returns it.
    pub fn remove_cell(&mut self, pos: Position) -> (previous: Option<usize>)
        ensures
            previous == old(self).spec_cell_at(pos),
            final(self).has_cell_changed(*old(self), pos, None),
    {
        proof {
            assert forall|p: Position| spec_key(p) == spec_key(pos) implies p == pos by {
                keys_are_distinct(p, pos);
            }
        }
        let k = key(pos);
        self.cells_by_pos.remove(&k)
    }

    /// Enters `edge` between `a` and `b` and returns the edge that joined
    /// them before. Positions that are not adjacent are refused, and the
    /// index stays as it was.
    pub fn insert_edge(&mut self, a: Position, b: Position, edge: usize) -> (r: Result<
        Option<usize>,
        TopologyError,
    >)
        ensures
            a.is_adjacent(b) ==> r == Ok::<Option<usize>, TopologyError>(
                old(self).spec_find_edge(a, b),
            ) && final(self).has_edge_changed(*old(self), a, b, Some(edge)),
            !a.is_adjacent(b) ==> r == Err::<Option<usize>, TopologyError>(
                TopologyError::NotAdjacent,
            ) && final(self).holds_the_same(*old(self)),
    {
        proof {
            assert forall|p: Position, q: Position|
                spec_slot(a, b) is Some && spec_slot(a, b) == spec_slot(p, q) implies (p == a && q
                    == b) || (p == b && q == a) by {
                slots_are_distinct(a, b, p, q);
            }
        }
        match slot(a, b) {
            Some((Axis::Horizontal, k)) => Ok(self.horizontal_edges.insert(k, edge)),
            Some((Axis::Vertical, k)) => Ok(self.vertical_edges.insert(k, edge)),
            None => Err(TopologyError::NotAdjacent),
        }
    }

    /// Takes the edge between `a` and `b` out of the index and returns it.
    pub fn remove_edge(&mut self, a: Position, b: Position) -> (previous: Option<usize>)
        ensures
            previous == old(self).spec_find_edge(a, b),
            final(self).has_edge_changed(*old(self), a, b, None),
    {
        proof {
            assert forall|p: Position, q: Position|
                spec_slot(a, b) is Some && spec_slot(a, b) == spec_slot(p, q) implies (p == a && q
                    == b) || (p == b && q == a) by {
                slots_are_distinct(a, b, p, q);
            }
        }
        match slot(a, b) {
            Some((Axis::Horizontal, k)) => self.horizontal_edges.remove(&k),
            Some((Axis::Vertical, k)) => self.vertical_edges.remove(&k),
            None => None,
        }
    }

    /// The edge between two positions is the same from either end.
    pub proof fn find_edge_is_symmetric(&self, a: Position, b: Position)
        ensures
            self.spec_find_edge(a, b) == self.spec_find_edge(b, a),
    {
    }

    /// Only adjacent positions are joined by an edge.
    pub proof fn edges_join_adjacent_positions(&self, a: Position, b: Position)
        requires
            self.spec_find_edge(a, b) is Some,
        ensures
            a.is_adjacent(b),
    {
    }
}

} // verus!
