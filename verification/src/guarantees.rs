//! What holds of every tick: proofs about the stages over any reactor and
//! any configuration.

use crate::cell::{
    ambient_fallback, boiling_is_sound, boiling_point,
    cell_without_reactivity_cools_towards_its_references, idle_cell_keeps_levels,
    inserted_rod_silences_cell, levels_are_sound, steam_stage_bounds_volume,
    steam_stage_conserves_volume, temperature_window, Cell,
};
use crate::config::SimulationConfig;
use crate::edge::Edge;
use crate::faults::{first_fault_found, stage_succeeds_without_faults, TickError};
use crate::fixed::{times_zero, Fixed, SCALE};
use crate::position::Direction;
use crate::reactor::{Neighbourhood, ReactorState};
use vstd::prelude::*;

verus! {

/// Whether two cells belong to the same core and stand at the same position.
pub open spec fn same_place(a: Cell, b: Cell) -> bool {
    a.core == b.core && a.position == b.position
}

/// Whether two cells agree in everything but reactivities and temperature.
pub open spec fn same_inventory(a: Cell, b: Cell) -> bool {
    a == (Cell {
        local_reactivity: a.local_reactivity,
        reactivity: a.reactivity,
        temperature: a.temperature,
        ..b
    })
}

/// Whether two edges belong to the same core and join the same positions.
pub open spec fn same_span(a: Edge, b: Edge) -> bool {
    a.core == b.core && a.first == b.first && a.second == b.second
}

/// Whether two reactors have the same cores, as many cells and edges as
/// each other, and each cell and each edge in the same place.
pub open spec fn same_layout(a: ReactorState, b: ReactorState) -> bool {
    &&& a.cores == b.cores
    &&& a.cells.len() == b.cells.len()
    &&& a.edges.len() == b.edges.len()
    &&& forall|i: int| 0 <= i < a.cells.len() ==> same_place(#[trigger] a.cells[i], b.cells[i])
    &&& forall|j: int| 0 <= j < a.edges.len() ==> same_span(#[trigger] a.edges[j], b.edges[j])
}

/// Whether the cells of two reactors agree, one by one, in everything but
/// reactivities and temperature.
pub open spec fn same_inventories(a: ReactorState, b: ReactorState) -> bool {
    &&& a.cells.len() == b.cells.len()
    &&& forall|i: int| 0 <= i < a.cells.len() ==> same_inventory(#[trigger] a.cells[i], b.cells[i])
}

/// The edge with its two positions named in the other order.
pub open spec fn turned_round(edge: Edge) -> Edge {
    Edge { first: edge.second, second: edge.first, ..edge }
}

/// The neighbourhood of a cell that no edge joins to anything.
pub open spec fn lone() -> Neighbourhood {
    Neighbourhood { up: None, down: None, left: None, right: None }
}

/// Whether coolant and steam together fill no more than the volume of any cell.
pub open spec fn volumes_fit(s: ReactorState) -> bool {
    forall|i: int|
        0 <= i < s.cells.len() ==> (#[trigger] s.cells[i]).coolant_level@ + s.cells[i].steam_level@
            <= SCALE
}

/// Whether the sum of coolant and steam is representable in every cell.
pub open spec fn volumes_are_representable(s: ReactorState) -> bool {
    forall|i: int|
        0 <= i < s.cells.len() ==> (#[trigger] s.cells[i]).coolant_level@ + s.cells[i].steam_level@
            <= i64::MAX
}

/// Reactors of the same layout have the same faults, so a tick ends alike
/// on both.
pub proof fn faults_follow_layout(a: ReactorState, b: ReactorState)
    requires
        same_layout(a, b),
    ensures
        a.edge_faults() == b.edge_faults(),
        a.cell_faults() == b.cell_faults(),
        a.layout_check() == b.layout_check(),
{
    assert forall|j: int| 0 <= j < a.edges.len() implies a.edge_endpoints(j) == b.edge_endpoints(
        j,
    ) by {
        assert(same_span(a.edges[j], b.edges[j]));
    }
    assert(a.edge_faults() =~= b.edge_faults());
    assert forall|i: int| 0 <= i < a.cells.len() implies a.neighbour_edges(i) == b.neighbour_edges(
        i,
    ) by {
        assert(same_place(a.cells[i], b.cells[i]));
    }
    assert(a.cell_faults() =~= b.cell_faults());
}

/// Sameness of layout and of inventories carries over from one pair of
/// reactors to the next.
pub proof fn sameness_is_transitive(a: ReactorState, b: ReactorState, c: ReactorState)
    requires
        same_layout(a, b),
        same_layout(b, c),
        same_inventories(a, b),
        same_inventories(b, c),
    ensures
        same_layout(a, c),
        same_inventories(a, c),
{
    assert forall|i: int| 0 <= i < a.cells.len() implies same_place(
        #[trigger] a.cells[i],
        c.cells[i],
    ) && same_inventory(a.cells[i], c.cells[i]) by {
        assert(same_place(a.cells[i], b.cells[i]));
        assert(same_place(b.cells[i], c.cells[i]));
        assert(same_inventory(a.cells[i], b.cells[i]));
        assert(same_inventory(b.cells[i], c.cells[i]));
    }
    assert forall|j: int| 0 <= j < a.edges.len() implies same_span(
        #[trigger] a.edges[j],
        c.edges[j],
    ) by {
        assert(same_span(a.edges[j], b.edges[j]));
        assert(same_span(b.edges[j], c.edges[j]));
    }
}

/// No stage before the steam stage changes the layout, or anything of a
/// cell but its reactivities and its temperature.
pub proof fn stages_keep_layout(s: ReactorState, config: SimulationConfig)
    ensures
        same_layout(s.after_local_reactivity(config), s),
        same_layout(s.after_edge_reactivity(), s),
        same_layout(s.after_total_reactivity(config), s),
        same_layout(s.after_edge_temperatures(), s),
        same_layout(s.after_temperature(config), s),
        same_inventories(s.after_local_reactivity(config), s),
        same_inventories(s.after_edge_reactivity(), s),
        same_inventories(s.after_total_reactivity(config), s),
        same_inventories(s.after_edge_temperatures(), s),
        same_inventories(s.after_temperature(config), s),
{
}

/// The steam stage does not change the layout.
pub proof fn steam_stage_keeps_layout(s: ReactorState, config: SimulationConfig, curved: Seq<Fixed>)
    ensures
        same_layout(s.after_steam(config, curved), s),
{
}

/// Whether a tick succeeds, and with which fault it stops, depends on the
/// layout alone; and the stages before the steam stage change neither the
/// layout nor anything of a cell but its reactivities and its temperature.
pub proof fn tick_result_follows_layout(s: ReactorState, config: SimulationConfig)
    ensures
        s.before_steam(config).1 == s.layout_check(),
        same_layout(s.before_steam(config).0, s),
        same_inventories(s.before_steam(config).0, s),
{
    let local = s.after_local_reactivity(config);
    let coupled = local.after_edge_reactivity();
    let total = coupled.after_total_reactivity(config);
    let bridged = total.after_edge_temperatures();
    let heated = bridged.after_temperature(config);
    stages_keep_layout(s, config);
    stages_keep_layout(local, config);
    stages_keep_layout(coupled, config);
    stages_keep_layout(total, config);
    stages_keep_layout(bridged, config);
    sameness_is_transitive(coupled, local, s);
    sameness_is_transitive(total, coupled, s);
    sameness_is_transitive(bridged, total, s);
    sameness_is_transitive(heated, bridged, s);
    faults_follow_layout(local, s);
    faults_follow_layout(coupled, s);
    faults_follow_layout(total, s);
    faults_follow_layout(bridged, s);
}

/// A tick leaves the layout as it was, whether it succeeds or not and
/// whatever the pressure curve gave: the next tick ends as this one did.
pub proof fn tick_keeps_layout(s: ReactorState, config: SimulationConfig, curved: Seq<Fixed>)
    ensures
        same_layout(s.before_steam(config).0, s),
        same_layout(s.before_steam(config).0.after_steam(config, curved), s),
        s.before_steam(config).0.layout_check() == s.layout_check(),
        s.before_steam(config).0.after_steam(config, curved).layout_check() == s.layout_check(),
{
    tick_result_follows_layout(s, config);
    let heated = s.before_steam(config).0;
    let after = heated.after_steam(config, curved);
    steam_stage_keeps_layout(heated, config, curved);
    assert forall|i: int| 0 <= i < after.cells.len() implies same_place(
        #[trigger] after.cells[i],
        s.cells[i],
    ) by {
        assert(same_place(after.cells[i], heated.cells[i]));
        assert(same_place(heated.cells[i], s.cells[i]));
    }
    assert forall|j: int| 0 <= j < after.edges.len() implies same_span(
        #[trigger] after.edges[j],
        s.edges[j],
    ) by {
        assert(same_span(heated.edges[j], s.edges[j]));
    }
    faults_follow_layout(heated, s);
    faults_follow_layout(after, s);
}

/// The reactivity of an edge after the stage that sets it does not depend
/// on which of its two positions is named first.
pub proof fn edge_reactivity_ignores_endpoint_order(s: ReactorState, edge: int)
    requires
        0 <= edge < s.edges.len(),
    ensures
        ({
            let turned = ReactorState {
                edges: s.edges.update(edge, turned_round(s.edges[edge])),
                ..s
            };
            turned.edge_with_reactivity(edge).reactivity == s.edge_with_reactivity(edge).reactivity
        }),
{
}

/// The temperature of an edge after the stage that sets it does not depend
/// on which of its two positions is named first.
pub proof fn edge_temperature_ignores_endpoint_order(s: ReactorState, edge: int)
    requires
        0 <= edge < s.edges.len(),
    ensures
        ({
            let turned = ReactorState {
                edges: s.edges.update(edge, turned_round(s.edges[edge])),
                ..s
            };
            turned.edge_with_temperature(edge).temperature == s.edge_with_temperature(
                edge,
            ).temperature
        }),
{
}

/// A cell that no edge joins to anything receives no reactivity and meets
/// the temperature of the surroundings on all four sides.
pub proof fn lone_cell_reads_fallbacks(s: ReactorState)
    ensures
        s.neighbor_sum(lone()) == Fixed::zero(),
        s.ambient_temperature(lone()) == ambient_fallback(),
{
}

/// A cell of an existing core that has no edge towards any of its four
/// sides has the lone neighbourhood: its total reactivity is its local one,
/// and it cools towards the temperature of the surroundings.
pub proof fn cell_without_edges_is_lone(s: ReactorState, config: SimulationConfig, cell: int)
    requires
        0 <= cell < s.cells.len(),
        s.cells[cell].core < s.cores.len(),
        forall|d: Direction| s.edge_towards(cell, d) == Ok::<Option<usize>, TickError>(None),
    ensures
        s.neighbour_edges(cell) == Ok::<Neighbourhood, TickError>(lone()),
        s.cell_with_total_reactivity(config, cell).reactivity == s.cells[cell].local_reactivity,
        s.cell_with_next_temperature(config, cell) == s.cells[cell].with_next_temperature(
            config,
            ambient_fallback(),
        ),
{
    assert(s.edge_towards(cell, Direction::Up) == Ok::<Option<usize>, TickError>(None));
    assert(s.edge_towards(cell, Direction::Down) == Ok::<Option<usize>, TickError>(None));
    assert(s.edge_towards(cell, Direction::Left) == Ok::<Option<usize>, TickError>(None));
    assert(s.edge_towards(cell, Direction::Right) == Ok::<Option<usize>, TickError>(None));
    lone_cell_reads_fallbacks(s);
    times_zero(config.reactivity_neighbor_coupling_factor);
}

/// In a tick that succeeds, each cell enters the steam stage with its local
/// reactivity computed from its own state, its total reactivity from the
/// edges as the second stage left them, and its temperature from the edges
/// as the fourth stage left them.
pub proof fn tick_heats_each_cell(s: ReactorState, config: SimulationConfig, cell: int)
    requires
        s.layout_check() is Ok,
        0 <= cell < s.cells.len(),
    ensures
        s.neighbour_edges(cell) is Ok,
        ({
            let around = s.neighbour_edges(cell)->Ok_0;
            let coupled = s.after_local_reactivity(config).after_edge_reactivity();
            let bridged = coupled.after_total_reactivity(config).after_edge_temperatures();
            s.before_steam(config).0.cells[cell] == s.cells[cell].with_local_reactivity(
                config,
            ).with_total_reactivity(config, coupled.neighbor_sum(around)).with_next_temperature(
                config,
                bridged.ambient_temperature(around),
            )
        }),
{
    let local = s.after_local_reactivity(config);
    let coupled = local.after_edge_reactivity();
    let total = coupled.after_total_reactivity(config);
    let bridged = total.after_edge_temperatures();
    stages_keep_layout(s, config);
    stages_keep_layout(local, config);
    stages_keep_layout(coupled, config);
    stages_keep_layout(total, config);
    sameness_is_transitive(coupled, local, s);
    sameness_is_transitive(total, coupled, s);
    sameness_is_transitive(bridged, total, s);
    faults_follow_layout(local, s);
    faults_follow_layout(coupled, s);
    faults_follow_layout(total, s);
    faults_follow_layout(bridged, s);
    stage_succeeds_without_faults(s.edge_faults());
    stage_succeeds_without_faults(s.cell_faults());
    first_fault_found(s.edge_faults(), 0, s.edges.len() as int);
    first_fault_found(s.cell_faults(), 0, s.cells.len() as int);
    assert(s.cell_faults()[cell] is None);
    assert(same_place(coupled.cells[cell], s.cells[cell]));
    assert(same_place(bridged.cells[cell], s.cells[cell]));
    assert(coupled.neighbour_edges(cell) == s.neighbour_edges(cell));
    assert(bridged.neighbour_edges(cell) == s.neighbour_edges(cell));
    assert(coupled.cells[cell] == s.cells[cell].with_local_reactivity(config));
    assert(bridged.cells[cell] == total.cells[cell]);
}

/// A cell with its rod fully inserted that no edge joins to anything comes
/// out of a tick that succeeds without reactivity, no warmer than before,
/// and no colder than the colder of its coolant and its surroundings,
/// provided that it started at least as warm as both, that the two cooling
/// rates are shares that add up to no more than one, and that the
/// temperatures lie within the window.
pub proof fn shut_down_lone_cell_cools(
    s: ReactorState,
    config: SimulationConfig,
    curved: Seq<Fixed>,
    cell: int,
)
    requires
        s.layout_check() is Ok,
        0 <= cell < s.cells.len(),
        s.neighbour_edges(cell) == Ok::<Neighbourhood, TickError>(lone()),
        s.cells[cell].control_rod == Fixed::one(),
        s.cells[cell].temperature@ >= config.coolant_temperature@,
        s.cells[cell].temperature@ >= ambient_fallback()@,
        s.cells[cell].temperature@ <= temperature_window(),
        config.coolant_temperature@ >= -temperature_window(),
        s.cells[cell].coolant_level.times(config.coolant_efficiency)@ >= 0,
        config.temperature_passive_decay_rate@ >= 0,
        s.cells[cell].coolant_level.times(config.coolant_efficiency)@
            + config.temperature_passive_decay_rate@ <= SCALE,
    ensures
        ({
            let after = s.before_steam(config).0.after_steam(config, curved).cells[cell];
            &&& after.local_reactivity == Fixed::zero()
            &&& after.reactivity == Fixed::zero()
            &&& after.temperature@ <= s.cells[cell].temperature@
            &&& after.temperature@ >= config.coolant_temperature@ || after.temperature@
                >= ambient_fallback()@
        }),
{
    tick_heats_each_cell(s, config, cell);
    let coupled = s.after_local_reactivity(config).after_edge_reactivity();
    let bridged = coupled.after_total_reactivity(config).after_edge_temperatures();
    lone_cell_reads_fallbacks(coupled);
    lone_cell_reads_fallbacks(bridged);
    inserted_rod_silences_cell(s.cells[cell], config);
    times_zero(config.reactivity_neighbor_coupling_factor);
    let silent = s.cells[cell].with_local_reactivity(config).with_total_reactivity(
        config,
        Fixed::zero(),
    );
    assert(silent.reactivity == Fixed::zero());
    cell_without_reactivity_cools_towards_its_references(silent, config, ambient_fallback());
}

/// The steam stage leaves no cell overfull whose levels were representable.
pub proof fn steam_stage_fits_volumes(s: ReactorState, config: SimulationConfig, curved: Seq<Fixed>)
    requires
        volumes_are_representable(s),
    ensures
        volumes_fit(s.after_steam(config, curved)),
        volumes_are_representable(s.after_steam(config, curved)),
{
    let after = s.after_steam(config, curved);
    assert forall|i: int| 0 <= i < after.cells.len() implies (#[trigger] after.cells[i])
        .coolant_level@ + after.cells[i].steam_level@ <= SCALE by {
        assert(s.cells[i].coolant_level@ + s.cells[i].steam_level@ <= i64::MAX);
        steam_stage_bounds_volume(s.cells[i], config, curved[i]);
    }
}

/// The stages before the steam stage leave the levels representable that
/// were so before.
pub proof fn stages_keep_volumes_representable(s: ReactorState, config: SimulationConfig)
    requires
        volumes_are_representable(s),
    ensures
        volumes_are_representable(s.before_steam(config).0),
{
    tick_result_follows_layout(s, config);
    let heated = s.before_steam(config).0;
    assert forall|i: int| 0 <= i < heated.cells.len() implies (#[trigger] heated.cells[i])
        .coolant_level@ + heated.cells[i].steam_level@ <= i64::MAX by {
        assert(same_inventory(heated.cells[i], s.cells[i]));
        assert(s.cells[i].coolant_level@ + s.cells[i].steam_level@ <= i64::MAX);
    }
}

/// After a tick that succeeds no cell is overfull, whatever the pressure
/// curve gave, if the levels were representable before. They are
/// representable again then, so no cell is overfull after any number of
/// further ticks.
pub proof fn tick_fits_volumes(s: ReactorState, config: SimulationConfig, curved: Seq<Fixed>)
    requires
        volumes_are_representable(s),
    ensures
        volumes_fit(s.before_steam(config).0.after_steam(config, curved)),
        volumes_are_representable(s.before_steam(config).0.after_steam(config, curved)),
{
    stages_keep_volumes_representable(s, config);
    steam_stage_fits_volumes(s.before_steam(config).0, config, curved);
}

/// A cell into which no coolant flows, whose coolant and steam fit its
/// volume, and which is not boiling when the steam stage begins, has the
/// same coolant and steam after the tick as before, and gives no steam off.
pub proof fn tick_keeps_idle_levels(
    s: ReactorState,
    config: SimulationConfig,
    curved: Seq<Fixed>,
    cell: int,
)
    requires
        0 <= cell < s.cells.len(),
        s.cells[cell].coolant_flow == Fixed::zero(),
        s.cells[cell].coolant_level@ + s.cells[cell].steam_level@ <= SCALE,
        s.before_steam(config).0.cells[cell].temperature@ <= boiling_point(s.cells[cell].pressure)@
            || s.cells[cell].coolant_level@ <= 0,
    ensures
        ({
            let after = s.before_steam(config).0.after_steam(config, curved).cells[cell];
            &&& after.coolant_level == s.cells[cell].coolant_level
            &&& after.steam_level == s.cells[cell].steam_level
            &&& after.steam_output == Fixed::zero()
        }),
{
    tick_result_follows_layout(s, config);
    let heated = s.before_steam(config).0;
    assert(same_inventory(heated.cells[cell], s.cells[cell]));
    idle_cell_keeps_levels(heated.cells[cell], config, curved[cell]);
}

/// Volume is conserved over a tick: in a cell with sound levels and an
/// inflow that is not negative, under a sound configuration, coolant and
/// steam together grow by the inflow, up to the cell's volume; no steam is
/// given off; and the levels are sound again afterwards.
pub proof fn tick_conserves_volume(
    s: ReactorState,
    config: SimulationConfig,
    curved: Seq<Fixed>,
    cell: int,
)
    requires
        0 <= cell < s.cells.len(),
        levels_are_sound(s.cells[cell]),
        boiling_is_sound(config),
        s.cells[cell].coolant_flow@ >= 0,
    ensures
        ({
            let before = s.cells[cell];
            let after = s.before_steam(config).0.after_steam(config, curved).cells[cell];
            let offered = before.coolant_level@ + before.steam_level@ + before.coolant_flow@;
            &&& levels_are_sound(after)
            &&& after.steam_output == Fixed::zero()
            &&& after.coolant_level@ + after.steam_level@ == if offered <= SCALE {
                offered
            } else {
                SCALE as int
            }
        }),
{
    tick_result_follows_layout(s, config);
    let heated = s.before_steam(config).0;
    assert(same_inventory(heated.cells[cell], s.cells[cell]));
    steam_stage_conserves_volume(heated.cells[cell], config, curved[cell]);
}

} // verus!
