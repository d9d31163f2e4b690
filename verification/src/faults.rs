//! The faults that stop a tick, and what a stage over a list returns when
//! some of its items are faulty.

use vstd::prelude::*;

verus! {

/// Why a tick stopped: the lists of the reactor do not fit together.
#[derive(Clone, Copy, Debug, PartialEq, Eq, Structural)]
pub enum TickError {
    /// The cell with this index names a core that does not exist.
    OrphanedCell(usize),
    /// The edge with this index names a core that does not exist.
    OrphanedEdge(usize),
    /// A core's index, or a caller, names a cell that does not exist.
    MissingCell(usize),
    /// A core's index, or a caller, names an edge that does not exist.
    MissingEdge(usize),
}

/// The place of the first fault at or after `from`, or the length of the
/// list where there is none.
pub open spec fn first_fault_from(faults: Seq<Option<TickError>>, from: int) -> int
    decreases faults.len() - from,
{
    if from >= faults.len() {
        faults.len() as int
    } else if faults[from] is Some {
        from
    } else {
        first_fault_from(faults, from + 1)
    }
}

/// The place of the first fault in the list, or its length where there is none.
pub open spec fn first_fault(faults: Seq<Option<TickError>>) -> int {
    first_fault_from(faults, 0)
}

/// What a stage returns that stops at the first fault in `faults`.
pub open spec fn stage_result(faults: Seq<Option<TickError>>) -> Result<(), TickError> {
    let stop = first_fault(faults);
    if 0 <= stop < faults.len() && faults[stop] is Some {
        Err(faults[stop]->Some_0)
    } else {
        Ok(())
    }
}

/// `stop` is the first fault from `from` on if nothing between them is a
/// fault and `stop` is one, or the end of the list.
pub proof fn first_fault_found(faults: Seq<Option<TickError>>, from: int, stop: int)
    requires
        0 <= from <= stop <= faults.len(),
        forall|j: int| from <= j < stop ==> faults[j] is None,
        stop < faults.len() ==> faults[stop] is Some,
    ensures
        first_fault_from(faults, from) == stop,
    decreases stop - from,
{
    if from < stop {
        first_fault_found(faults, from + 1, stop);
    }
}

/// The first fault is a fault, and nothing before it is one.
pub proof fn first_fault_is_first(faults: Seq<Option<TickError>>, from: int)
    requires
        0 <= from <= faults.len(),
    ensures
        from <= first_fault_from(faults, from) <= faults.len(),
        first_fault_from(faults, from) < faults.len() ==> faults[first_fault_from(
            faults,
            from,
        )] is Some,
        forall|j: int| from <= j < first_fault_from(faults, from) ==> faults[j] is None,
    decreases faults.len() - from,
{
    if from < faults.len() && faults[from] is None {
        first_fault_is_first(faults, from + 1);
    }
}

/// A stage succeeds exactly when the list holds no fault.
pub proof fn stage_succeeds_without_faults(faults: Seq<Option<TickError>>)
    ensures
        stage_result(faults) is Ok <==> forall|k: int| 0 <= k < faults.len() ==> faults[k] is None,
{
    first_fault_is_first(faults, 0);
}

} // verus!
