//! The physical constants that a tick reads.

use crate::fixed::Fixed;
use vstd::prelude::*;

verus! {

/// The tunable physical constants of the model. A tick reads them and never
/// changes them.
#[derive(Clone, Copy, Debug, PartialEq, Eq, Structural)]
pub struct SimulationConfig {
    /// Reactivity of a cell with its rod withdrawn and full of coolant.
    pub base_reactivity: Fixed,
    /// Relative gain in reactivity of a cell that has lost all its coolant.
    pub void_reactivity_boost: Fixed,
    /// Share of the adjacent edges' reactivity that a cell receives.
    pub reactivity_neighbor_coupling_factor: Fixed,
    /// Degrees gained per unit of reactivity.
    pub heat_generation_factor: Fixed,
    /// Temperature of the liquid coolant.
    pub coolant_temperature: Fixed,
    /// Share of the gap to the coolant's temperature that a full cell loses.
    pub coolant_efficiency: Fixed,
    /// Share of the gap to the surroundings' temperature that a cell loses.
    pub temperature_passive_decay_rate: Fixed,
    /// Energy released per degree above the boiling point.
    pub energy_per_heat_unit: Fixed,
    /// Energy that turns one unit of coolant into steam.
    pub energy_required_per_unit: Fixed,
    /// Amount of gas that one unit of steam makes.
    pub steam_expansion_ratio: Fixed,
    /// Exponent handed to the pressure curve.
    pub pressure_curve_exponent: Fixed,
    /// Pressure of a cell that holds no steam.
    pub nominal_pressure: Fixed,
    /// Pressure added per unit of curved pressure.
    pub pressure_scale: Fixed,
    /// Steam drawn off per tick at nominal pressure.
    pub steam_pull_factor: Fixed,
}

impl SimulationConfig {
    /// The constants of a core that idles stably.
    pub open spec fn spec_idle() -> SimulationConfig {
        SimulationConfig {
            base_reactivity: Fixed { micros: 1_000_000 },
            void_reactivity_boost: Fixed { micros: 500_000 },
            reactivity_neighbor_coupling_factor: Fixed { micros: 100_000 },
            heat_generation_factor: Fixed { micros: 5_000_000 },
            coolant_temperature: Fixed { micros: 25_000_000 },
            coolant_efficiency: Fixed { micros: 50_000 },
            temperature_passive_decay_rate: Fixed { micros: 10_000 },
            energy_per_heat_unit: Fixed { micros: 1_000_000 },
            energy_required_per_unit: Fixed { micros: 500_000_000 },
            steam_expansion_ratio: Fixed { micros: 10_000_000 },
            pressure_curve_exponent: Fixed { micros: 500_000 },
            nominal_pressure: Fixed { micros: 1_000_000 },
            pressure_scale: Fixed { micros: 100_000 },
            steam_pull_factor: Fixed { micros: 100_000 },
        }
    }
}

impl Default for SimulationConfig {
    fn default() -> (r: SimulationConfig)
        ensures
            r == SimulationConfig::spec_idle(),
    {
        SimulationConfig {
            base_reactivity: Fixed::from_micros(1_000_000),
            void_reactivity_boost: Fixed::from_micros(500_000),
            reactivity_neighbor_coupling_factor: Fixed::from_micros(100_000),
            heat_generation_factor: Fixed::from_micros(5_000_000),
            coolant_temperature: Fixed::from_micros(25_000_000),
            coolant_efficiency: Fixed::from_micros(50_000),
            temperature_passive_decay_rate: Fixed::from_micros(10_000),
            energy_per_heat_unit: Fixed::from_micros(1_000_000),
            energy_required_per_unit: Fixed::from_micros(500_000_000),
            steam_expansion_ratio: Fixed::from_micros(10_000_000),
            pressure_curve_exponent: Fixed::from_micros(500_000),
            nominal_pressure: Fixed::from_micros(1_000_000),
            pressure_scale: Fixed::from_micros(100_000),
            steam_pull_factor: Fixed::from_micros(100_000),
        }
    }
}

} // verus!
