//! The six stages of a tick over a whole reactor, and the tick itself.
//!
//! A stage over the cells or the edges works through its list in order.
//! Each item is computed from the reactor as the stage found it, so the
//! result for one item does not depend on the others. A fault stops the
//! stage at the faulty item.

use crate::cell::{ambient_fallback, Cell};
use crate::config::SimulationConfig;
use crate::edge::{average, Edge};
use crate::faults::{first_fault, first_fault_found, stage_result, TickError};
use crate::fixed::Fixed;
use crate::guarantees::{
    stages_keep_volumes_representable, steam_stage_fits_volumes, tick_result_follows_layout,
    volumes_are_representable, volumes_fit,
};
use crate::reactor::{Neighbourhood, Reactor, ReactorState};
use vstd::prelude::*;

verus! {

impl ReactorState {
    /// The cells with every local reactivity computed anew.
    pub open spec fn after_local_reactivity(self, config: SimulationConfig) -> ReactorState {
        ReactorState {
            cells: Seq::new(self.cells.len(), |i: int| self.cells[i].with_local_reactivity(config)),
            ..self
        }
    }

    /// The edge with its reactivity set to the mean of its two cells' local
    /// reactivities; unchanged where a cell is not there.
    pub open spec fn edge_with_reactivity(self, edge: int) -> Edge {
        match self.edge_endpoints(edge) {
            Ok(Some((first, second))) => Edge {
                reactivity: average(
                    self.cells[first as int].local_reactivity,
                    self.cells[second as int].local_reactivity,
                ),
                ..self.edges[edge]
            },
            _ => self.edges[edge],
        }
    }

    /// The edge with its temperature set to the mean of its two cells'
    /// temperatures; unchanged where a cell is not there.
    pub open spec fn edge_with_temperature(self, edge: int) -> Edge {
        match self.edge_endpoints(edge) {
            Ok(Some((first, second))) => Edge {
                temperature: average(
                    self.cells[first as int].temperature,
                    self.cells[second as int].temperature,
                ),
                ..self.edges[edge]
            },
            _ => self.edges[edge],
        }
    }

    /// The reactor after the stage that sets the edges' reactivities: every
    /// edge before the first fault is set, the others are as they were.
    pub open spec fn after_edge_reactivity(self) -> ReactorState {
        let stop = first_fault(self.edge_faults());
        ReactorState {
            edges: Seq::new(
                self.edges.len(),
                |j: int|
                    if j < stop {
                        self.edge_with_reactivity(j)
                    } else {
                        self.edges[j]
                    },
            ),
            ..self
        }
    }

    /// The reactor after the stage that sets the edges' temperatures: every
    /// edge before the first fault is set, the others are as they were.
    pub open spec fn after_edge_temperatures(self) -> ReactorState {
        let stop = first_fault(self.edge_faults());
        ReactorState {
            edges: Seq::new(
                self.edges.len(),
                |j: int|
                    if j < stop {
                        self.edge_with_temperature(j)
                    } else {
                        self.edges[j]
                    },
            ),
            ..self
        }
    }

    /// Reactivity that reaches a cell over `edge`: nothing where there is no edge.
    pub open spec fn reactivity_over(self, edge: Option<usize>) -> Fixed {
        match edge {
            Some(e) => self.edges[e as int].reactivity,
            None => Fixed::zero(),
        }
    }

    /// Temperature that a cell meets over `edge`: that of the surroundings
    /// where there is no edge.
    pub open spec fn temperature_over(self, edge: Option<usize>) -> Fixed {
        match edge {
            Some(e) => self.edges[e as int].temperature,
            None => ambient_fallback(),
        }
    }

    /// Sum of the reactivities that reach a cell over its four sides.
    pub open spec fn neighbor_sum(self, around: Neighbourhood) -> Fixed {
        Fixed::zero().plus(self.reactivity_over(around.up)).plus(
            self.reactivity_over(around.down),
        ).plus(self.reactivity_over(around.left)).plus(self.reactivity_over(around.right))
    }

    /// Mean of the temperatures that a cell meets on its four sides.
    pub open spec fn ambient_temperature(self, around: Neighbourhood) -> Fixed {
        Fixed::zero().plus(self.temperature_over(around.up)).plus(
            self.temperature_over(around.down),
        ).plus(self.temperature_over(around.left)).plus(self.temperature_over(around.right)).over(
            Fixed { micros: 4_000_000 },
        )
    }

    /// The cell with its total reactivity set from its local one and its
    /// neighbourhood; unchanged where the neighbourhood is faulty.
    pub open spec fn cell_with_total_reactivity(self, config: SimulationConfig, cell: int) -> Cell {
        match self.neighbour_edges(cell) {
            Ok(around) => self.cells[cell].with_total_reactivity(config, self.neighbor_sum(around)),
            Err(_) => self.cells[cell],
        }
    }

    /// The cell after one tick of heating and cooling in its neighbourhood;
    /// unchanged where the neighbourhood is faulty.
    pub open spec fn cell_with_next_temperature(self, config: SimulationConfig, cell: int) -> Cell {
        match self.neighbour_edges(cell) {
            Ok(around) => self.cells[cell].with_next_temperature(
                config,
                self.ambient_temperature(around),
            ),
            Err(_) => self.cells[cell],
        }
    }

    /// The reactor after the stage that sets the cells' total reactivities:
    /// every cell before the first fault is set, the others are as they were.
    pub open spec fn after_total_reactivity(self, config: SimulationConfig) -> ReactorState {
        let stop = first_fault(self.cell_faults());
        ReactorState {
            cells: Seq::new(
                self.cells.len(),
                |i: int|
                    if i < stop {
                        self.cell_with_total_reactivity(config, i)
                    } else {
                        self.cells[i]
                    },
            ),
            ..self
        }
    }

    /// The reactor after the stage that heats and cools the cells: every
    /// cell before the first fault is done, the others are as they were.
    pub open spec fn after_temperature(self, config: SimulationConfig) -> ReactorState {
        let stop = first_fault(self.cell_faults());
        ReactorState {
            cells: Seq::new(
                self.cells.len(),
                |i: int|
                    if i < stop {
                        self.cell_with_next_temperature(config, i)
                    } else {
                        self.cells[i]
                    },
            ),
            ..self
        }
    }

    /// Whether `curve` accepts, for each cell, the raw pressure of the boiled
    /// cell with the configured exponent.
    pub open spec fn curve_accepts<F: Fn(Fixed, Fixed) -> Fixed>(
        self,
        config: SimulationConfig,
        curve: F,
    ) -> bool {
        forall|i: int|
            0 <= i < self.cells.len() ==> call_requires(
                curve,
                (
                    (#[trigger] self.cells[i]).boiled(config).spec_raw_pressure(config),
                    config.pressure_curve_exponent,
                ),
            )
    }

    /// Whether `curved` holds, for each cell, a value that `curve` may return
    /// for the raw pressure of the boiled cell and the configured exponent.
    pub open spec fn curved_by<F: Fn(Fixed, Fixed) -> Fixed>(
        self,
        config: SimulationConfig,
        curve: F,
        curved: Seq<Fixed>,
    ) -> bool {
        &&& curved.len() == self.cells.len()
        &&& forall|i: int|
            0 <= i < self.cells.len() ==> call_ensures(
                curve,
                (
                    self.cells[i].boiled(config).spec_raw_pressure(config),
                    config.pressure_curve_exponent,
                ),
                #[trigger] curved[i],
            )
    }

    /// The reactor after the steam stage, where the curve has given
    /// `curved[i]` for cell `i`.
    pub open spec fn after_steam(
        self,
        config: SimulationConfig,
        curved: Seq<Fixed>,
    ) -> ReactorState {
        ReactorState {
            cells: Seq::new(self.cells.len(), |i: int| self.cells[i].steamed(config, curved[i])),
            ..self
        }
    }

    /// Whether `after` is the reactor after the steam stage for some values
    /// that `curve` may return, one for each cell.
    pub open spec fn steamed_through<F: Fn(Fixed, Fixed) -> Fixed>(
        self,
        config: SimulationConfig,
        curve: F,
        after: ReactorState,
    ) -> bool {
        exists|curved: Seq<Fixed>|
            self.curved_by(config, curve, curved) && after == #[trigger] self.after_steam(
                config,
                curved,
            )
    }

    /// The reactor after the five stages that come before the steam stage,
    /// and what they return: local reactivity, edge reactivity, total
    /// reactivity, edge temperatures, temperature, up to the first stage
    /// that meets a fault.
    pub open spec fn before_steam(self, config: SimulationConfig) -> (
        ReactorState,
        Result<(), TickError>,
    ) {
        let local = self.after_local_reactivity(config);
        let coupled = local.after_edge_reactivity();
        if stage_result(local.edge_faults()) is Err {
            (coupled, stage_result(local.edge_faults()))
        } else {
            let total = coupled.after_total_reactivity(config);
            if stage_result(coupled.cell_faults()) is Err {
                (total, stage_result(coupled.cell_faults()))
            } else {
                let bridged = total.after_edge_temperatures();
                if stage_result(total.edge_faults()) is Err {
                    (bridged, stage_result(total.edge_faults()))
                } else {
                    (bridged.after_temperature(config), stage_result(bridged.cell_faults()))
                }
            }
        }
    }

    /// What a tick returns, told from the layout alone: the first fault
    /// among the edges, else the first fault among the cells, else success.
    pub open spec fn layout_check(self) -> Result<(), TickError> {
        match stage_result(self.edge_faults()) {
            Err(e) => Err(e),
            Ok(_) => stage_result(self.cell_faults()),
        }
    }
}

impl Reactor {
    /// Recomputes the local reactivity of every cell.
    pub fn update_local_reactivity(&mut self, config: &SimulationConfig)
        ensures
            final(self)@ == old(self)@.after_local_reactivity(*config),
    {
        let n = self.cells.len();
        let mut i: usize = 0;
        while i < n
            invariant
                i <= n,
                n == self.cells.len(),
                n == old(self).cells.len(),
                self.cores@ == old(self).cores@,
                self.edges@ == old(self).edges@,
                forall|j: int|
                    0 <= j < i ==> self.cells[j] == old(self).cells[j].with_local_reactivity(
                        *config,
                    ),
                forall|j: int| i <= j < n ==> self.cells[j] == old(self).cells[j],
            decreases n - i,
        {
            let mut cell = self.cells[i];
            cell.update_local_reactivity(config);
            self.cells.set(i, cell);
            i += 1;
        }
        assert(self@.cells =~= old(self)@.after_local_reactivity(*config).cells);
    }

    /// Sets the reactivity of every edge to the mean of its two cells' local
    /// reactivities, in the order of the list. An edge with a cell that is
    /// not there is left as it is. The first fault stops the stage and is
    /// returned; the edges from there on are left as they are.
    pub fn update_edge_reactivity(&mut self) -> (r: Result<(), TickError>)
        ensures
            final(self)@ == old(self)@.after_edge_reactivity(),
            r == stage_result(old(self)@.edge_faults()),
    {
        let ghost before = self@;
        let ghost faults = before.edge_faults();
        let n = self.edges.len();
        let mut j: usize = 0;
        while j < n
            invariant
                j <= n,
                n == self.edges.len(),
                before == old(self)@,
                faults == before.edge_faults(),
                self.cores@ == before.cores,
                self.cells@ == before.cells,
                self.edges@.len() == before.edges.len(),
                forall|k: int| 0 <= k < j ==> faults[k] is None,
                forall|k: int| 0 <= k < j ==> self.edges[k] == before.edge_with_reactivity(k),
                forall|k: int| j <= k < n ==> self.edges[k] == before.edges[k],
            decreases n - j,
        {
            assert(self@.edge_endpoints(j as int) == before.edge_endpoints(j as int));
            match self.edge_endpoints(j) {
                Err(e) => {
                    proof {
                        first_fault_found(faults, 0, j as int);
                        assert(self@.edges =~= before.after_edge_reactivity().edges);
                    }
                    return Err(e);
                },
                Ok(None) => {},
                Ok(Some((first, second))) => {
                    let mut edge = self.edges[j];
                    edge.reactivity = average(
                        self.cells[first].local_reactivity,
                        self.cells[second].local_reactivity,
                    );
                    self.edges.set(j, edge);
                },
            }
            j += 1;
        }
        proof {
            first_fault_found(faults, 0, n as int);
            assert(self@.edges =~= before.after_edge_reactivity().edges);
        }
        Ok(())
    }

    /// Sets the total reactivity of every cell from its local one and the
    /// reactivities of its edges, in the order of the list. The first fault
    /// stops the stage and is returned; the cells from there on are left as
    /// they are.
    pub fn update_total_reactivity(&mut self, config: &SimulationConfig) -> (r: Result<
        (),
        TickError,
    >)
        ensures
            final(self)@ == old(self)@.after_total_reactivity(*config),
            r == stage_result(old(self)@.cell_faults()),
    {
        let ghost before = self@;
        let ghost faults = before.cell_faults();
        let n = self.cells.len();
        let mut i: usize = 0;
        while i < n
            invariant
                i <= n,
                n == self.cells.len(),
                before == old(self)@,
                faults == before.cell_faults(),
                self.cores@ == before.cores,
                self.edges@ == before.edges,
                self.cells@.len() == before.cells.len(),
                forall|k: int| 0 <= k < i ==> faults[k] is None,
                forall|k: int|
                    0 <= k < i ==> self.cells[k] == before.cell_with_total_reactivity(*config, k),
                forall|k: int| i <= k < n ==> self.cells[k] == before.cells[k],
            decreases n - i,
        {
            assert(self@.neighbour_edges(i as int) == before.neighbour_edges(i as int));
            match self.neighbour_edges(i) {
                Err(e) => {
                    proof {
                        first_fault_found(faults, 0, i as int);
                        assert(self@.cells =~= before.after_total_reactivity(*config).cells);
                    }
                    return Err(e);
                },
                Ok(around) => {
                    let neighbor_sum = Fixed::zero().plus(self.reactivity_over(around.up)).plus(
                        self.reactivity_over(around.down),
                    ).plus(self.reactivity_over(around.left)).plus(
                        self.reactivity_over(around.right),
                    );
                    assert(neighbor_sum == before.neighbor_sum(around));
                    let mut cell = self.cells[i];
                    cell.update_total_reactivity(config, neighbor_sum);
                    self.cells.set(i, cell);
                },
            }
            i += 1;
        }
        proof {
            first_fault_found(faults, 0, n as int);
            assert(self@.cells =~= before.after_total_reactivity(*config).cells);
        }
        Ok(())
    }

    /// Sets the temperature of every edge to the mean of its two cells'
    /// temperatures, in the order of the list. An edge with a cell that is
    /// not there is left as it is. The first fault stops the stage and is
    /// returned; the edges from there on are left as they are.
    pub fn update_edge_temperatures(&mut self) -> (r: Result<(), TickError>)
        ensures
            final(self)@ == old(self)@.after_edge_temperatures(),
            r == stage_result(old(self)@.edge_faults()),
    {
        let ghost before = self@;
        let ghost faults = before.edge_faults();
        let n = self.edges.len();
        let mut j: usize = 0;
        while j < n
            invariant
                j <= n,
                n == self.edges.len(),
                before == old(self)@,
                faults == before.edge_faults(),
                self.cores@ == before.cores,
                self.cells@ == before.cells,
                self.edges@.len() == before.edges.len(),
                forall|k: int| 0 <= k < j ==> faults[k] is None,
                forall|k: int| 0 <= k < j ==> self.edges[k] == before.edge_with_temperature(k),
                forall|k: int| j <= k < n ==> self.edges[k] == before.edges[k],
            decreases n - j,
        {
            assert(self@.edge_endpoints(j as int) == before.edge_endpoints(j as int));
            match self.edge_endpoints(j) {
                Err(e) => {
                    proof {
                        first_fault_found(faults, 0, j as int);
                        assert(self@.edges =~= before.after_edge_temperatures().edges);
                    }
                    return Err(e);
                },
                Ok(None) => {},
                Ok(Some((first, second))) => {
                    let mut edge = self.edges[j];
                    edge.temperature = average(
                        self.cells[first].temperature,
                        self.cells[second].temperature,
                    );
                    self.edges.set(j, edge);
                },
            }
            j += 1;
        }
        proof {
            first_fault_found(faults, 0, n as int);
            assert(self@.edges =~= before.after_edge_temperatures().edges);
        }
        Ok(())
    }

    fn reactivity_over(&self, edge: Option<usize>) -> (r: Fixed)
        requires
            edge is Some ==> edge->Some_0 < self.edges.len(),
        ensures
            r == self@.reactivity_over(edge),
    {
        match edge {
            Some(e) => self.edges[e].reactivity,
            None => Fixed::zero(),
        }
    }

    fn temperature_over(&self, edge: Option<usize>) -> (r: Fixed)
        requires
            edge is Some ==> edge->Some_0 < self.edges.len(),
        ensures
            r == self@.temperature_over(edge),
    {
        match edge {
            Some(e) => self.edges[e].temperature,
            None => ambient_fallback(),
        }
    }

    /// Heats and cools every cell for one tick, in the order of the list.
    /// The first fault stops the stage and is returned; the cells from there
    /// on are left as they are.
    pub fn update_temperature(&mut self, config: &SimulationConfig) -> (r: Result<(), TickError>)
        ensures
            final(self)@ == old(self)@.after_temperature(*config),
            r == stage_result(old(self)@.cell_faults()),
    {
        let ghost before = self@;
        let ghost faults = before.cell_faults();
        let n = self.cells.len();
        let mut i: usize = 0;
        while i < n
            invariant
                i <= n,
                n == self.cells.len(),
                before == old(self)@,
                faults == before.cell_faults(),
                self.cores@ == before.cores,
                self.edges@ == before.edges,
                self.cells@.len() == before.cells.len(),
                forall|k: int| 0 <= k < i ==> faults[k] is None,
                forall|k: int|
                    0 <= k < i ==> self.cells[k] == before.cell_with_next_temperature(*config, k),
                forall|k: int| i <= k < n ==> self.cells[k] == before.cells[k],
            decreases n - i,
        {
            assert(self@.neighbour_edges(i as int) == before.neighbour_edges(i as int));
            match self.neighbour_edges(i) {
                Err(e) => {
                    proof {
                        first_fault_found(faults, 0, i as int);
                        assert(self@.cells =~= before.after_temperature(*config).cells);
                    }
                    return Err(e);
                },
                Ok(around) => {
                    let neighbor_temp_sum = Fixed::zero().plus(
                        self.temperature_over(around.up),
                    ).plus(self.temperature_over(around.down)).plus(
                        self.temperature_over(around.left),
                    ).plus(self.temperature_over(around.right));
                    let ambient_temperature = neighbor_temp_sum.over(
                        Fixed::from_micros(4_000_000),
                    );
                    assert(ambient_temperature == before.ambient_temperature(around));
                    let mut cell = self.cells[i];
                    cell.update_temperature(config, ambient_temperature);
                    self.cells.set(i, cell);
                },
            }
            i += 1;
        }
        proof {
            first_fault_found(faults, 0, n as int);
            assert(self@.cells =~= before.after_temperature(*config).cells);
        }
        Ok(())
    }

    /// Runs the steam stage on every cell, in the order of the list: boils
    /// coolant off, asks `curve` for the raw pressure raised to the
    /// configured exponent, sets the pressure, draws steam off and lets
    /// coolant in. `curve` must accept each of those raw pressures with the
    /// exponent.
    pub fn generate_steam<F: Fn(Fixed, Fixed) -> Fixed>(
        &mut self,
        config: &SimulationConfig,
        curve: &F,
    )
        requires
            old(self)@.curve_accepts(*config, *curve),
        ensures
            old(self)@.steamed_through(*config, *curve, final(self)@),
            volumes_are_representable(old(self)@) ==> volumes_fit(final(self)@),
    {
        let ghost before = self@;
        let ghost mut curved: Seq<Fixed> = Seq::empty();
        let n = self.cells.len();
        let mut i: usize = 0;
        while i < n
            invariant
                i <= n,
                n == self.cells.len(),
                before == old(self)@,
                before.curve_accepts(*config, *curve),
                self.cores@ == before.cores,
                self.edges@ == before.edges,
                self.cells@.len() == before.cells.len(),
                curved.len() == i,
                forall|k: int|
                    0 <= k < i ==> call_ensures(
                        *curve,
                        (
                            before.cells[k].boiled(*config).spec_raw_pressure(*config),
                            config.pressure_curve_exponent,
                        ),
                        #[trigger] curved[k],
                    ),
                forall|k: int|
                    0 <= k < i ==> self.cells[k] == before.cells[k].steamed(*config, curved[k]),
                forall|k: int| i <= k < n ==> self.cells[k] == before.cells[k],
            decreases n - i,
        {
            assert(self.cells[i as int] == before.cells[i as int]);
            let mut cell = self.cells[i];
            cell.boil(config);
            let raw_pressure = cell.raw_pressure(config);
            let curved_pressure = curve(raw_pressure, config.pressure_curve_exponent);
            cell.settle(config, curved_pressure);
            self.cells.set(i, cell);
            proof {
                curved = curved.push(curved_pressure);
            }
            i += 1;
        }
        proof {
            assert(self@.cells =~= before.after_steam(*config, curved).cells);
            assert(before.curved_by(*config, *curve, curved));
            if volumes_are_representable(before) {
                steam_stage_fits_volumes(before, *config, curved);
            }
        }
    }

    /// Advances the reactor by one tick: local reactivity, edge reactivity,
    /// total reactivity, edge temperatures, temperature, steam.
    ///
    /// The first stage that meets a fault ends the tick with that fault;
    /// what the stages have written until then stays. `curve` must accept
    /// what the steam stage hands it: the raw pressure of each cell as the
    /// first five stages and the boiling leave it, with the configured
    /// exponent.
    pub fn advance_tick<F: Fn(Fixed, Fixed) -> Fixed>(
        &mut self,
        config: &SimulationConfig,
        curve: &F,
    ) -> (r: Result<(), TickError>)
        requires
            old(self)@.before_steam(*config).0.curve_accepts(*config, *curve),
        ensures
            r == old(self)@.layout_check(),
            r == old(self)@.before_steam(*config).1,
            r is Err ==> final(self)@ == old(self)@.before_steam(*config).0,
            r is Ok ==> old(self)@.before_steam(*config).0.steamed_through(
                *config,
                *curve,
                final(self)@,
            ),
            r is Ok && volumes_are_representable(old(self)@) ==> volumes_fit(final(self)@),
    {
        proof {
            tick_result_follows_layout(self@, *config);
        }
        self.update_local_reactivity(config);
        match self.update_edge_reactivity() {
            Err(e) => { return Err(e); },
            Ok(()) => {},
        }
        match self.update_total_reactivity(config) {
            Err(e) => { return Err(e); },
            Ok(()) => {},
        }
        match self.update_edge_temperatures() {
            Err(e) => { return Err(e); },
            Ok(()) => {},
        }
        match self.update_temperature(config) {
            Err(e) => { return Err(e); },
            Ok(()) => {},
        }
        proof {
            assert(self@ == old(self)@.before_steam(*config).0);
            if volumes_are_representable(old(self)@) {
                stages_keep_volumes_representable(old(self)@, *config);
            }
        }
        self.generate_steam(config, curve);
        Ok(())
    }
}

} // verus!
