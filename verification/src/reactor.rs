//! The reactor: cores, cells and edges in three lists, and the lookups that
//! lead from an edge to its cells and from a cell to its edges.

use crate::cell::Cell;
use crate::edge::Edge;
use crate::faults::TickError;
use crate::position::Direction;
use crate::topology::{ReactorCore, TopologyError};
use vstd::prelude::*;

verus! {

/// Everything that a tick reads and writes: the cores' indices, and the
/// cells and edges of all cores, each named by its place in its list.
///
/// The lists are open to the host, which may fill them as it likes. Where
/// they do not fit together, a tick says so and stops.
#[derive(Debug)]
pub struct Reactor {
    pub cores: Vec<ReactorCore>,
    pub cells: Vec<Cell>,
    pub edges: Vec<Edge>,
}

/// The edges that join a cell to its four neighbours, by their indices.
#[derive(Clone, Copy, Debug, PartialEq, Eq, Structural)]
pub struct Neighbourhood {
    pub up: Option<usize>,
    pub down: Option<usize>,
    pub left: Option<usize>,
    pub right: Option<usize>,
}

/// The three lists of a reactor as mathematical sequences.
pub struct ReactorState {
    pub cores: Seq<ReactorCore>,
    pub cells: Seq<Cell>,
    pub edges: Seq<Edge>,
}

impl View for Reactor {
    type V = ReactorState;

    open spec fn view(&self) -> ReactorState {
        ReactorState { cores: self.cores@, cells: self.cells@, edges: self.edges@ }
    }
}

impl ReactorState {
    /// Whether `after` has the cores of this reactor at their places, but
    /// for the one with index `core`.
    pub open spec fn has_cores_but(self, after: ReactorState, core: int) -> bool {
        forall|k: int|
            0 <= k < self.cores.len() && k != core ==> k < after.cores.len() && after.cores[k]
                == self.cores[k]
    }

    /// Whether `after` is this reactor with `cell` added to the list and
    /// entered in its core's index.
    pub open spec fn has_cell_added(self, after: ReactorState, cell: Cell) -> bool {
        &&& after.cells == self.cells.push(cell)
        &&& after.edges == self.edges
        &&& after.cores.len() == self.cores.len()
        &&& self.has_cores_but(after, cell.core as int)
        &&& after.cores[cell.core as int].has_cell_changed(
            self.cores[cell.core as int],
            cell.position,
            Some(self.cells.len() as usize),
        )
    }

    /// Whether `after` is this reactor with `edge` added to the list and
    /// entered in its core's index.
    pub open spec fn has_edge_added(self, after: ReactorState, edge: Edge) -> bool {
        &&& after.edges == self.edges.push(edge)
        &&& after.cells == self.cells
        &&& after.cores.len() == self.cores.len()
        &&& self.has_cores_but(after, edge.core as int)
        &&& after.cores[edge.core as int].has_edge_changed(
            self.cores[edge.core as int],
            edge.first,
            edge.second,
            Some(self.edges.len() as usize),
        )
    }

    /// What becomes of a cell that is to be added: its index, or why it is
    /// refused.
    pub open spec fn cell_admission(self, cell: Cell) -> Result<usize, TopologyError> {
        if cell.core >= self.cores.len() {
            Err(TopologyError::UnknownCore)
        } else if self.cores[cell.core as int].spec_cell_at(cell.position) is Some {
            Err(TopologyError::Occupied)
        } else {
            Ok(self.cells.len() as usize)
        }
    }

    /// What becomes of an edge that is to be added: its index, or why it is
    /// refused.
    pub open spec fn edge_admission(self, edge: Edge) -> Result<usize, TopologyError> {
        if edge.core >= self.cores.len() {
            Err(TopologyError::UnknownCore)
        } else if !edge.first.is_adjacent(edge.second) {
            Err(TopologyError::NotAdjacent)
        } else if self.cores[edge.core as int].spec_find_edge(edge.first, edge.second) is Some {
            Err(TopologyError::Occupied)
        } else {
            Ok(self.edges.len() as usize)
        }
    }

    /// The cells that an edge joins, by their indices: `Ok(None)` where the
    /// edge's core has no cell at one of its two positions.
    ///
    /// It is a fault if the edge or its core does not exist, or if the
    /// core's index names a cell that does not exist: the first one's
    /// before the second one's.
    pub open spec fn edge_endpoints(self, edge: int) -> Result<Option<(usize, usize)>, TickError> {
        if !(0 <= edge < self.edges.len()) {
            Err(TickError::MissingEdge(edge as usize))
        } else if self.edges[edge].core >= self.cores.len() {
            Err(TickError::OrphanedEdge(edge as usize))
        } else {
            let core = self.cores[self.edges[edge].core as int];
            match (
                core.spec_cell_at(self.edges[edge].first),
                core.spec_cell_at(self.edges[edge].second),
            ) {
                (Some(first), Some(second)) => if first >= self.cells.len() {
                    Err(TickError::MissingCell(first))
                } else if second >= self.cells.len() {
                    Err(TickError::MissingCell(second))
                } else {
                    Ok(Some((first, second)))
                },
                _ => Ok(None),
            }
        }
    }

    /// For each edge, the fault that stops a stage over the edges there.
    pub open spec fn edge_faults(self) -> Seq<Option<TickError>> {
        Seq::new(
            self.edges.len(),
            |j: int|
                match self.edge_endpoints(j) {
                    Err(e) => Some(e),
                    Ok(_) => None,
                },
        )
    }

    /// The edge that joins a cell to its neighbour in direction `d`: `Ok(None)`
    /// where the cell's core has no such edge, or no position lies in that
    /// direction. It is a fault if the core's index names an edge that does
    /// not exist.
    pub open spec fn edge_towards(self, cell: int, d: Direction) -> Result<
        Option<usize>,
        TickError,
    >
        recommends
            0 <= cell < self.cells.len(),
            self.cells[cell].core < self.cores.len(),
    {
        let position = self.cells[cell].position;
        if !position.has_neighbour(d) {
            Ok(None)
        } else {
            match self.cores[self.cells[cell].core as int].spec_find_edge(
                position,
                position.step(d),
            ) {
                None => Ok(None),
                Some(edge) => if edge < self.edges.len() {
                    Ok(Some(edge))
                } else {
                    Err(TickError::MissingEdge(edge))
                },
            }
        }
    }

    /// The edges that join a cell to its four neighbours.
    ///
    /// It is a fault if the cell or its core does not exist, or if the
    /// core's index names an edge that does not exist: the first such edge
    /// in the order up, down, left, right.
    pub open spec fn neighbour_edges(self, cell: int) -> Result<Neighbourhood, TickError> {
        if !(0 <= cell < self.cells.len()) {
            Err(TickError::MissingCell(cell as usize))
        } else if self.cells[cell].core >= self.cores.len() {
            Err(TickError::OrphanedCell(cell as usize))
        } else {
            match self.edge_towards(cell, Direction::Up) {
                Err(e) => Err(e),
                Ok(up) => match self.edge_towards(cell, Direction::Down) {
                    Err(e) => Err(e),
                    Ok(down) => match self.edge_towards(cell, Direction::Left) {
                        Err(e) => Err(e),
                        Ok(left) => match self.edge_towards(cell, Direction::Right) {
                            Err(e) => Err(e),
                            Ok(right) => Ok(Neighbourhood { up, down, left, right }),
                        },
                    },
                },
            }
        }
    }

    /// For each cell, the fault that stops a stage over the cells there.
    pub open spec fn cell_faults(self) -> Seq<Option<TickError>> {
        Seq::new(
            self.cells.len(),
            |i: int|
                match self.neighbour_edges(i) {
                    Err(e) => Some(e),
                    Ok(_) => None,
                },
        )
    }
}

impl Reactor {
    /// A reactor without cores, cells or edges.
    pub fn new() -> (r: Reactor)
        ensures
            r@.cores.len() == 0,
            r@.cells.len() == 0,
            r@.edges.len() == 0,
    {
        Reactor { cores: Vec::new(), cells: Vec::new(), edges: Vec::new() }
    }

    /// Adds a core without cells or edges and returns its index.
    pub fn add_core(&mut self) -> (core: usize)
        ensures
            core == old(self)@.cores.len(),
            final(self)@.cores.len() == core + 1,
            final(self)@.cores[core as int].is_empty(),
            old(self)@.has_cores_but(final(self)@, core as int),
            final(self)@.cells == old(self)@.cells,
            final(self)@.edges == old(self)@.edges,
    {
        self.cores.push(ReactorCore::new());
        self.cores.len() - 1
    }

    /// Adds `cell` to the list and enters it in its core's index at its
    /// position. Returns the cell's index.
    ///
    /// A cell of a core that does not exist, or at a position where its
    /// core has a cell already, is refused, and the reactor stays as it was.
    pub fn add_cell(&mut self, cell: Cell) -> (r: Result<usize, TopologyError>)
        ensures
            r == old(self)@.cell_admission(cell),
            r is Err ==> final(self)@ == old(self)@,
            r is Ok ==> old(self)@.has_cell_added(final(self)@, cell),
    {
        if cell.core >= self.cores.len() {
            return Err(TopologyError::UnknownCore);
        }
        if self.cores[cell.core].cell_at(cell.position).is_some() {
            return Err(TopologyError::Occupied);
        }
        let index = self.cells.len();
        self.cells.push(cell);
        self.cores[cell.core].insert_cell(cell.position, index);
        Ok(index)
    }

    /// Adds `edge` to the list and enters it in its core's index between
    /// its two positions. Returns the edge's index.
    ///
    /// An edge of a core that does not exist, between positions that are
    /// not adjacent, or between positions that its core joins already, is
    /// refused, and the reactor stays as it was.
    pub fn add_edge(&mut self, edge: Edge) -> (r: Result<usize, TopologyError>)
        ensures
            r == old(self)@.edge_admission(edge),
            r is Err ==> final(self)@ == old(self)@,
            r is Ok ==> old(self)@.has_edge_added(final(self)@, edge),
    {
        if edge.core >= self.cores.len() {
            return Err(TopologyError::UnknownCore);
        }
        if !edge.first.is_adjacent(edge.second) {
            return Err(TopologyError::NotAdjacent);
        }
        if self.cores[edge.core].find_edge(edge.first, edge.second).is_some() {
            return Err(TopologyError::Occupied);
        }
        let index = self.edges.len();
        self.edges.push(edge);
        let _ = self.cores[edge.core].insert_edge(edge.first, edge.second, index);
        Ok(index)
    }

    /// The cells that an edge joins, by their indices: `Ok(None)` where the
    /// edge's core has no cell at one of its two positions.
    pub fn edge_endpoints(&self, edge: usize) -> (r: Result<Option<(usize, usize)>, TickError>)
        ensures
            r == self@.edge_endpoints(edge as int),
    {
        if edge >= self.edges.len() {
            return Err(TickError::MissingEdge(edge));
        }
        let core_index = self.edges[edge].core;
        if core_index >= self.cores.len() {
            return Err(TickError::OrphanedEdge(edge));
        }
        let core = &self.cores[core_index];
        let first = match core.cell_at(self.edges[edge].first) {
            Some(first) => first,
            None => { return Ok(None); },
        };
        let second = match core.cell_at(self.edges[edge].second) {
            Some(second) => second,
            None => { return Ok(None); },
        };
        if first >= self.cells.len() {
            Err(TickError::MissingCell(first))
        } else if second >= self.cells.len() {
            Err(TickError::MissingCell(second))
        } else {
            Ok(Some((first, second)))
        }
    }

    fn edge_towards(&self, cell: usize, d: Direction) -> (r: Result<Option<usize>, TickError>)
        requires
            cell < self.cells.len(),
            self.cells[cell as int].core < self.cores.len(),
        ensures
            r == self@.edge_towards(cell as int, d),
    {
        let position = self.cells[cell].position;
        match position.neighbour(d) {
            None => Ok(None),
            Some(towards) => match self.cores[self.cells[cell].core].find_edge(position, towards) {
                None => Ok(None),
                Some(edge) => if edge < self.edges.len() {
                    Ok(Some(edge))
                } else {
                    Err(TickError::MissingEdge(edge))
                },
            },
        }
    }

    /// The edges that join a cell to its four neighbours.
    pub fn neighbour_edges(&self, cell: usize) -> (r: Result<Neighbourhood, TickError>)
        ensures
            r == self@.neighbour_edges(cell as int),
    {
        if cell >= self.cells.len() {
            return Err(TickError::MissingCell(cell));
        }
        if self.cells[cell].core >= self.cores.len() {
            return Err(TickError::OrphanedCell(cell));
        }
        let up = match self.edge_towards(cell, Direction::Up) {
            Ok(edge) => edge,
            Err(e) => { return Err(e); },
        };
        let down = match self.edge_towards(cell, Direction::Down) {
            Ok(edge) => edge,
            Err(e) => { return Err(e); },
        };
        let left = match self.edge_towards(cell, Direction::Left) {
            Ok(edge) => edge,
            Err(e) => { return Err(e); },
        };
        let right = match self.edge_towards(cell, Direction::Right) {
            Ok(edge) => edge,
            Err(e) => { return Err(e); },
        };
        Ok(Neighbourhood { up, down, left, right })
    }
}

} // verus!
