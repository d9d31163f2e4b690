use reactor_sim::cell::Cell;
use reactor_sim::config::SimulationConfig;
use reactor_sim::edge::Edge;
use reactor_sim::fixed::Fixed;
use reactor_sim::position::Position;
use reactor_sim::faults::TickError;
use reactor_sim::reactor::{Neighbourhood, Reactor};
use reactor_sim::topology::{ReactorCore, TopologyError};

fn fx(value: f64) -> Fixed {
    Fixed::from_micros((value * 1e6).round() as i64)
}

fn power(base: Fixed, exponent: Fixed) -> Fixed {
    let raised = (base.micros() as f64 / 1e6).powf(exponent.micros() as f64 / 1e6);
    Fixed::from_micros((raised * 1e6) as i64)
}

fn same(base: Fixed, _exponent: Fixed) -> Fixed {
    base
}

/// Two cells side by side, joined by one edge: a flooded one with its rod
/// withdrawn at 100 degrees, and a dry one with its rod half inserted at 50.
fn pair() -> Reactor {
    let mut reactor = Reactor::new();
    let core = reactor.add_core();
    let mut left = Cell::new(core, Position::new(0, 0));
    left.coolant_level = fx(1.0);
    left.temperature = fx(100.0);
    let mut right = Cell::new(core, Position::new(1, 0));
    right.control_rod = fx(0.5);
    right.temperature = fx(50.0);
    assert_eq!(reactor.add_cell(left), Ok(0));
    assert_eq!(reactor.add_cell(right), Ok(1));
    assert_eq!(reactor.add_edge(Edge::new(core, Position::new(1, 0), Position::new(0, 0))), Ok(0));
    reactor
}

fn lone(cell: Cell) -> Reactor {
    let mut reactor = Reactor::new();
    let core = reactor.add_core();
    assert_eq!(reactor.add_cell(Cell { core, ..cell }), Ok(0));
    reactor
}

#[test]
fn test_generates_steam() {
    // A cell with every quantity at zero is cold and empty: nothing boils
    // and nothing leaves it.
    let config = SimulationConfig::default();
    let mut reactor = lone(Cell::new(0, Position::new(0, 0)));
    reactor.generate_steam(&config, &power);
    let steam_output = reactor.cells[0].steam_output;
    assert!(!(steam_output > Fixed::zero()), "no steam without heat");
    assert_eq!(reactor.advance_tick(&config, &power), Ok(()));
    assert!(!(reactor.cells[0].steam_output > Fixed::zero()), "no steam without heat");

    // A hot cell half full of coolant boils some of it off.
    let mut hot = Cell::new(0, Position::new(0, 0));
    hot.temperature = fx(150.0);
    hot.pressure = fx(1.0);
    hot.coolant_level = fx(0.5);
    hot.steam_pull_capacity = fx(1.0);
    let mut reactor = lone(hot);
    assert_eq!(reactor.advance_tick(&config, &power), Ok(()));
    let after = reactor.cells[0];
    assert!(after.coolant_level < hot.coolant_level, "Coolant should boil off");
    assert!(after.steam_level > hot.steam_level, "Steam should be generated");
    assert!(after.pressure > config.nominal_pressure, "Pressure should build up");
    assert_eq!(after.local_reactivity, fx(1.25));
    assert_eq!(after.reactivity, fx(1.25));
    assert_eq!(after.temperature, fx(151.875));
    assert_eq!(after.coolant_level, fx(0.39625));
    assert_eq!(after.steam_level, fx(0.10375));
    assert_eq!(after.steam_output, Fixed::zero());
}

#[test]
fn builders_enter_cells_and_edges_in_the_index() {
    let reactor = pair();
    assert_eq!(reactor.cores.len(), 1);
    assert_eq!(reactor.cores[0].cell_at(Position::new(0, 0)), Some(0));
    assert_eq!(reactor.cores[0].cell_at(Position::new(1, 0)), Some(1));
    assert_eq!(reactor.cores[0].cell_at(Position::new(0, 1)), None);
    assert_eq!(reactor.cores[0].find_edge(Position::new(0, 0), Position::new(1, 0)), Some(0));
    assert_eq!(reactor.edge_endpoints(0), Ok(Some((1, 0))));
    assert_eq!(
        reactor.neighbour_edges(0),
        Ok(Neighbourhood { up: None, down: None, left: None, right: Some(0) })
    );
    assert_eq!(
        reactor.neighbour_edges(1),
        Ok(Neighbourhood { up: None, down: None, left: Some(0), right: None })
    );
}

#[test]
fn builders_refuse_what_does_not_fit() {
    let mut reactor = pair();
    let origin = Position::new(0, 0);
    assert_eq!(reactor.add_cell(Cell::new(1, origin)), Err(TopologyError::UnknownCore));
    assert_eq!(reactor.add_cell(Cell::new(0, origin)), Err(TopologyError::Occupied));
    assert_eq!(
        reactor.add_edge(Edge::new(3, origin, Position::new(0, 1))),
        Err(TopologyError::UnknownCore)
    );
    assert_eq!(
        reactor.add_edge(Edge::new(0, origin, Position::new(1, 1))),
        Err(TopologyError::NotAdjacent)
    );
    assert_eq!(
        reactor.add_edge(Edge::new(0, origin, Position::new(1, 0))),
        Err(TopologyError::Occupied)
    );
    assert_eq!(reactor.cells.len(), 2);
    assert_eq!(reactor.edges.len(), 1);
    let second = reactor.add_core();
    assert_eq!(second, 1);
    assert_eq!(reactor.add_cell(Cell::new(second, origin)), Ok(2));
    assert_eq!(reactor.add_edge(Edge::new(second, origin, Position::new(1, 0))), Ok(1));
    assert_eq!(reactor.cores[0].cell_at(origin), Some(0));
    assert_eq!(reactor.cores[1].cell_at(origin), Some(2));
}

#[test]
fn stages_couple_the_pair_through_its_edge() {
    let config = SimulationConfig::default();
    let mut reactor = pair();

    reactor.update_local_reactivity(&config);
    assert_eq!(reactor.cells[0].local_reactivity, fx(1.0));
    assert_eq!(reactor.cells[1].local_reactivity, fx(0.75));

    assert_eq!(reactor.update_edge_reactivity(), Ok(()));
    assert_eq!(reactor.edges[0].reactivity, fx(0.875));
    assert_eq!(reactor.edges[0].temperature, Fixed::zero());

    assert_eq!(reactor.update_total_reactivity(&config), Ok(()));
    assert_eq!(reactor.cells[0].reactivity, fx(1.0875));
    assert_eq!(reactor.cells[1].reactivity, fx(0.8375));

    assert_eq!(reactor.update_edge_temperatures(), Ok(()));
    assert_eq!(reactor.edges[0].temperature, fx(75.0));
    assert_eq!(reactor.edges[0].reactivity, fx(0.875));

    // each cell meets 75 degrees on one side and 25 on three
    assert_eq!(reactor.update_temperature(&config), Ok(()));
    assert_eq!(reactor.cells[0].temperature, fx(101.0625));
    assert_eq!(reactor.cells[1].temperature, fx(54.0625));

    reactor.generate_steam(&config, &same);
    assert_eq!(reactor.cells[0].coolant_level, fx(0.991875));
    assert_eq!(reactor.cells[0].steam_level, fx(0.008125));
    assert_eq!(reactor.cells[0].pressure, fx(305.04765));
    assert_eq!(reactor.cells[1].coolant_level, Fixed::zero());
    assert_eq!(reactor.cells[1].pressure, fx(1.0));
}

#[test]
fn tick_runs_the_six_stages_in_order() {
    let config = SimulationConfig::default();
    let mut stepwise = pair();
    stepwise.update_local_reactivity(&config);
    assert_eq!(stepwise.update_edge_reactivity(), Ok(()));
    assert_eq!(stepwise.update_total_reactivity(&config), Ok(()));
    assert_eq!(stepwise.update_edge_temperatures(), Ok(()));
    assert_eq!(stepwise.update_temperature(&config), Ok(()));
    stepwise.generate_steam(&config, &same);

    let mut reactor = pair();
    assert_eq!(reactor.advance_tick(&config, &same), Ok(()));
    assert_eq!(reactor.cells, stepwise.cells);
    assert_eq!(reactor.edges, stepwise.edges);

    assert_eq!(reactor.advance_tick(&config, &same), Ok(()));
    assert_eq!(reactor.cells[0].local_reactivity, Fixed::from_micros(1_004_062));
    assert_eq!(reactor.cells[0].reactivity, Fixed::from_micros(1_091_765));
    assert_eq!(reactor.cells[0].temperature, Fixed::from_micros(102_119_940));
    assert_eq!(reactor.cells[0].pressure, Fixed::from_micros(305_906_820));
    assert_eq!(reactor.cells[1].reactivity, Fixed::from_micros(837_703));
    assert_eq!(reactor.cells[1].temperature, Fixed::from_micros(58_091_797));
    assert_eq!(reactor.edges[0].reactivity, Fixed::from_micros(877_031));
    assert_eq!(reactor.edges[0].temperature, Fixed::from_micros(77_562_500));
}

#[test]
fn edge_values_do_not_depend_on_the_order_of_the_endpoints() {
    let config = SimulationConfig::default();
    let mut reactor = pair();
    let mut turned = pair();
    let edge = turned.edges[0];
    turned.edges[0] = Edge { first: edge.second, second: edge.first, ..edge };
    assert_eq!(reactor.advance_tick(&config, &power), Ok(()));
    assert_eq!(turned.advance_tick(&config, &power), Ok(()));
    assert_eq!(reactor.edges[0].reactivity, turned.edges[0].reactivity);
    assert_eq!(reactor.edges[0].temperature, turned.edges[0].temperature);
    assert_eq!(reactor.cells, turned.cells);
}

#[test]
fn lone_cell_gets_no_boost_and_cools_towards_the_surroundings() {
    let config = SimulationConfig::default();
    let mut cell = Cell::new(0, Position::new(7, -7));
    cell.local_reactivity = fx(0.5);
    cell.reactivity = fx(9.0);
    cell.temperature = fx(125.0);
    let mut reactor = lone(cell);
    assert_eq!(
        reactor.neighbour_edges(0),
        Ok(Neighbourhood { up: None, down: None, left: None, right: None })
    );
    assert_eq!(reactor.update_total_reactivity(&config), Ok(()));
    assert_eq!(reactor.cells[0].reactivity, fx(0.5));
    assert_eq!(reactor.update_temperature(&config), Ok(()));
    // 125 + 0.5 * 5 - 0 - (125 - 25) * 0.01
    assert_eq!(reactor.cells[0].temperature, fx(126.5));
}

#[test]
fn cell_at_the_end_of_the_coordinate_range_has_fewer_neighbours() {
    let config = SimulationConfig::default();
    let corner = Position::new(i32::MAX, i32::MAX);
    let below = Position::new(i32::MAX, i32::MAX - 1);
    let mut reactor = Reactor::new();
    let core = reactor.add_core();
    let mut cell = Cell::new(core, corner);
    cell.temperature = fx(25.0);
    assert_eq!(reactor.add_cell(cell), Ok(0));
    assert_eq!(reactor.add_cell(Cell::new(core, below)), Ok(1));
    assert_eq!(reactor.add_edge(Edge::new(core, corner, below)), Ok(0));
    reactor.edges[0].temperature = fx(65.0);
    reactor.edges[0].reactivity = fx(2.0);
    assert_eq!(
        reactor.neighbour_edges(0),
        Ok(Neighbourhood { up: None, down: Some(0), left: None, right: None })
    );
    assert_eq!(reactor.update_total_reactivity(&config), Ok(()));
    assert_eq!(reactor.cells[0].reactivity, fx(0.2));
    assert_eq!(reactor.update_temperature(&config), Ok(()));
    // surroundings at (25 + 65 + 25 + 25) / 4 = 35
    assert_eq!(reactor.cells[0].temperature, fx(25.0 + 1.0 + 0.1));
}

#[test]
fn edge_with_a_missing_cell_is_skipped() {
    let mut reactor = pair();
    let core = 0;
    reactor.cells[0].local_reactivity = fx(1.0);
    reactor.cells[1].local_reactivity = fx(3.0);
    let gone = Position::new(2, 0);
    assert_eq!(reactor.add_edge(Edge::new(core, Position::new(1, 0), gone)), Ok(1));
    assert_eq!(reactor.add_edge(Edge::new(core, gone, Position::new(2, 1))), Ok(2));
    for edge in 1..3 {
        reactor.edges[edge].reactivity = fx(0.125);
        reactor.edges[edge].temperature = fx(-4.0);
    }
    assert_eq!(reactor.edge_endpoints(1), Ok(None));
    assert_eq!(reactor.edge_endpoints(2), Ok(None));
    assert_eq!(reactor.update_edge_reactivity(), Ok(()));
    assert_eq!(reactor.update_edge_temperatures(), Ok(()));
    assert_eq!(reactor.edges[0].reactivity, fx(2.0));
    assert_eq!(reactor.edges[0].temperature, fx(75.0));
    for edge in 1..3 {
        assert_eq!(reactor.edges[edge].reactivity, fx(0.125));
        assert_eq!(reactor.edges[edge].temperature, fx(-4.0));
    }
}

#[test]
fn orphaned_edge_stops_the_stage_where_it_stands() {
    let mut reactor = pair();
    reactor.cells[0].local_reactivity = fx(1.0);
    reactor.cells[1].local_reactivity = fx(3.0);
    let up = Edge::new(0, Position::new(0, 0), Position::new(0, 1));
    assert_eq!(reactor.add_edge(up), Ok(1));
    reactor.edges.push(Edge { reactivity: fx(5.0), ..reactor.edges[0] });
    reactor.edges[1].core = 4;
    assert_eq!(reactor.edge_endpoints(1), Err(TickError::OrphanedEdge(1)));
    assert_eq!(reactor.update_edge_reactivity(), Err(TickError::OrphanedEdge(1)));
    assert_eq!(reactor.edges[0].reactivity, fx(2.0));
    assert_eq!(reactor.edges[1].reactivity, Fixed::zero());
    assert_eq!(reactor.edges[2].reactivity, fx(5.0));
    assert_eq!(reactor.update_edge_temperatures(), Err(TickError::OrphanedEdge(1)));
    assert_eq!(reactor.edges[0].temperature, fx(75.0));
    assert_eq!(reactor.edges[2].temperature, Fixed::zero());
}

#[test]
fn index_entry_without_a_cell_is_a_fault() {
    let mut reactor = pair();
    reactor.cores[0].insert_cell(Position::new(0, 0), 17);
    assert_eq!(reactor.edge_endpoints(0), Err(TickError::MissingCell(17)));
    assert_eq!(reactor.update_edge_reactivity(), Err(TickError::MissingCell(17)));
    reactor.cores[0].insert_cell(Position::new(1, 0), 23);
    // the edge names (1, 0) first
    assert_eq!(reactor.update_edge_temperatures(), Err(TickError::MissingCell(23)));
    assert_eq!(reactor.edge_endpoints(5), Err(TickError::MissingEdge(5)));
}

#[test]
fn orphaned_cell_stops_the_stage_where_it_stands() {
    let config = SimulationConfig::default();
    let mut reactor = pair();
    reactor.cells[0].local_reactivity = fx(1.0);
    reactor.cells[1].local_reactivity = fx(3.0);
    reactor.edges[0].reactivity = fx(2.0);
    reactor.edges[0].temperature = fx(75.0);
    reactor.cells.push(Cell::new(0, Position::new(9, 9)));
    reactor.cells[1].core = 1;
    assert_eq!(reactor.neighbour_edges(1), Err(TickError::OrphanedCell(1)));
    assert_eq!(reactor.update_total_reactivity(&config), Err(TickError::OrphanedCell(1)));
    assert_eq!(reactor.cells[0].reactivity, fx(1.2));
    assert_eq!(reactor.cells[1].reactivity, Fixed::zero());
    assert_eq!(reactor.cells[2].reactivity, Fixed::zero());
    assert_eq!(reactor.update_temperature(&config), Err(TickError::OrphanedCell(1)));
    assert_eq!(reactor.cells[1].temperature, fx(50.0));
    assert_eq!(reactor.neighbour_edges(3), Err(TickError::MissingCell(3)));
}

#[test]
fn index_entry_without_an_edge_is_a_fault() {
    let config = SimulationConfig::default();
    let mut reactor = pair();
    assert_eq!(
        reactor.cores[0].insert_edge(Position::new(1, 0), Position::new(1, 1), 8),
        Ok(None)
    );
    assert_eq!(reactor.neighbour_edges(1), Err(TickError::MissingEdge(8)));
    assert_eq!(reactor.update_total_reactivity(&config), Err(TickError::MissingEdge(8)));
    assert_eq!(reactor.update_temperature(&config), Err(TickError::MissingEdge(8)));
    // up comes before left
    assert_eq!(
        reactor.cores[0].insert_edge(Position::new(1, 0), Position::new(0, 0), 6),
        Ok(Some(0))
    );
    assert_eq!(reactor.neighbour_edges(1), Err(TickError::MissingEdge(8)));
    assert_eq!(reactor.neighbour_edges(0), Err(TickError::MissingEdge(6)));
}

#[test]
fn tick_stops_at_the_first_faulty_stage() {
    let config = SimulationConfig::default();
    let mut reactor = pair();
    reactor.cells[1].core = 2;
    let before = reactor.cells.clone();
    assert_eq!(reactor.advance_tick(&config, &power), Err(TickError::OrphanedCell(1)));
    // the first two stages ran, and the third up to the faulty cell
    assert_eq!(reactor.cells[0].local_reactivity, fx(1.0));
    assert_eq!(reactor.cells[1].local_reactivity, fx(0.75));
    assert_eq!(reactor.edges[0].reactivity, fx(0.875));
    assert_eq!(reactor.cells[0].reactivity, fx(1.0875));
    assert_eq!(reactor.cells[1].reactivity, Fixed::zero());
    assert_eq!(reactor.edges[0].temperature, Fixed::zero());
    assert_eq!(reactor.cells[0].temperature, before[0].temperature);
    assert_eq!(reactor.cells[0].pressure, before[0].pressure);

    let mut reactor = pair();
    reactor.edges[0].core = 2;
    reactor.cells[1].core = 2;
    assert_eq!(reactor.advance_tick(&config, &power), Err(TickError::OrphanedEdge(0)));
    assert_eq!(reactor.cells[0].local_reactivity, fx(1.0));
    assert_eq!(reactor.cells[0].reactivity, Fixed::zero());
}

#[test]
fn cores_do_not_see_each_other() {
    let config = SimulationConfig::default();
    let mut reactor = pair();
    let other = reactor.add_core();
    let mut far = Cell::new(other, Position::new(0, 1));
    far.temperature = fx(25.0);
    far.control_rod = fx(1.0);
    assert_eq!(reactor.add_cell(far), Ok(2));
    assert_eq!(reactor.advance_tick(&config, &same), Ok(()));
    assert_eq!(reactor.cells[2].reactivity, Fixed::zero());
    assert_eq!(reactor.cells[2].temperature, fx(25.0));
    assert_eq!(reactor.cells[0].reactivity, fx(1.0875));
}

#[test]
fn shut_down_cell_settles_at_the_coolant_temperature() {
    let config = SimulationConfig::default();
    let mut cell = Cell::new(0, Position::new(0, 0));
    cell.control_rod = fx(1.0);
    cell.coolant_level = fx(1.0);
    cell.temperature = fx(90.0);
    cell.pressure = fx(1.0);
    let mut reactor = lone(cell);
    let mut last = cell.temperature;
    for _ in 0..2000 {
        assert_eq!(reactor.advance_tick(&config, &power), Ok(()));
        let now = reactor.cells[0];
        assert_eq!(now.local_reactivity, Fixed::zero());
        assert_eq!(now.reactivity, Fixed::zero());
        assert!(now.temperature <= last);
        assert!(now.temperature >= config.coolant_temperature);
        assert_eq!(now.coolant_level, fx(1.0));
        assert_eq!(now.steam_level, Fixed::zero());
        last = now.temperature;
    }
    assert!(last.minus(config.coolant_temperature) < fx(0.001));
}

#[test]
fn volume_stays_bounded_over_many_ticks() {
    let config = SimulationConfig::default();
    let mut reactor = pair();
    reactor.cells[0].coolant_flow = fx(0.4);
    reactor.cells[0].steam_pull_capacity = fx(0.01);
    reactor.cells[1].coolant_flow = fx(2.5);
    reactor.cells[1].coolant_level = fx(0.9);
    reactor.cells[1].steam_level = fx(0.6);
    reactor.cells[1].temperature = fx(400.0);
    for _ in 0..500 {
        assert_eq!(reactor.advance_tick(&config, &power), Ok(()));
        for cell in &reactor.cells {
            assert!(cell.coolant_level.micros() + cell.steam_level.micros() <= 1_000_000);
            assert!(cell.steam_output >= Fixed::zero());
        }
    }
}

#[test]
fn cold_cell_without_flow_keeps_its_levels_through_a_tick() {
    let config = SimulationConfig { base_reactivity: Fixed::zero(), ..SimulationConfig::default() };
    let mut cell = Cell::new(0, Position::new(0, 0));
    cell.coolant_level = fx(0.6);
    cell.steam_level = fx(0.3);
    cell.temperature = fx(60.0);
    cell.pressure = fx(1.0);
    let mut reactor = lone(cell);
    for _ in 0..50 {
        assert_eq!(reactor.advance_tick(&config, &power), Ok(()));
        assert_eq!(reactor.cells[0].reactivity, Fixed::zero());
        assert_eq!(reactor.cells[0].coolant_level, fx(0.6));
        assert_eq!(reactor.cells[0].steam_level, fx(0.3));
        assert_eq!(reactor.cells[0].steam_output, Fixed::zero());
    }
}

#[test]
fn empty_reactor_ticks() {
    let config = SimulationConfig::default();
    let mut reactor = Reactor::new();
    assert_eq!(reactor.advance_tick(&config, &power), Ok(()));
    assert!(reactor.cells.is_empty());
    assert!(reactor.edges.is_empty());
    let mut core = ReactorCore::new();
    core.insert_cell(Position::new(0, 0), 0);
    reactor.cores.push(core);
    assert_eq!(reactor.advance_tick(&config, &power), Ok(()));
}
