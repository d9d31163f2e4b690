//! The state of one cell and what each stage of a tick does to it.
//!
//! Every stage is given twice: as a function on values, which says what the
//! stage computes, and as a method that updates a cell in place and is
//! proved to compute just that.

use crate::config::SimulationConfig;
use crate::fixed::{over_is_monotonic, times_is_monotonic, times_zero, Fixed, SCALE};
use crate::position::Position;
use vstd::prelude::*;

verus! {

/// Temperature, in degrees, that stands in for a neighbour that is not there.
pub open spec fn spec_ambient_fallback() -> Fixed {
    Fixed { micros: 25_000_000 }
}

#[verifier::when_used_as_spec(spec_ambient_fallback)]
pub fn ambient_fallback() -> (r: Fixed)
    ensures
        r == spec_ambient_fallback(),
{
    Fixed::from_micros(25_000_000)
}

/// Temperature at which coolant boils under `pressure`: a hundred degrees at
/// one unit of pressure, and three degrees more for each further unit.
pub open spec fn spec_boiling_point(pressure: Fixed) -> Fixed {
    Fixed { micros: 100_000_000 }.plus(
        pressure.minus(Fixed::one()).times(Fixed { micros: 3_000_000 }),
    )
}

#[verifier::when_used_as_spec(spec_boiling_point)]
pub fn boiling_point(pressure: Fixed) -> (r: Fixed)
    ensures
        r == spec_boiling_point(pressure),
{
    Fixed::from_micros(100_000_000).plus(
        pressure.minus(Fixed::one()).times(Fixed::from_micros(3_000_000)),
    )
}

/// Steam that the consumer can take in one tick: its capacity, or what the
/// pressure drives out, whichever is less.
pub open spec fn spec_potential_output(
    capacity: Fixed,
    pull_factor: Fixed,
    pressure: Fixed,
    nominal_pressure: Fixed,
) -> Fixed {
    capacity.min(pull_factor.times(pressure.over(nominal_pressure)))
}

#[verifier::when_used_as_spec(spec_potential_output)]
pub fn potential_output(
    capacity: Fixed,
    pull_factor: Fixed,
    pressure: Fixed,
    nominal_pressure: Fixed,
) -> (r: Fixed)
    ensures
        r == spec_potential_output(capacity, pull_factor, pressure, nominal_pressure),
{
    capacity.min(pull_factor.times(pressure.over(nominal_pressure)))
}

/// The physical state of one grid position.
#[derive(Clone, Copy, Debug, PartialEq, Eq, Structural)]
pub struct Cell {
    /// Index of the core that the cell belongs to.
    pub core: usize,
    pub position: Position,
    /// Insertion of the control rod, from 0 (withdrawn) to 1 (fully inserted).
    pub control_rod: Fixed,
    /// Share of the cell's volume that liquid coolant fills.
    pub coolant_level: Fixed,
    /// Reactivity that the cell produces by itself.
    pub local_reactivity: Fixed,
    /// Reactivity including what the neighbours contribute.
    pub reactivity: Fixed,
    pub temperature: Fixed,
    /// Share of the cell's volume that steam fills.
    pub steam_level: Fixed,
    /// Steam taken out of the cell in the last tick.
    pub steam_output: Fixed,
    pub pressure: Fixed,
    /// Coolant offered to the cell per tick.
    pub coolant_flow: Fixed,
    /// Most steam that may be taken out of the cell per tick.
    pub steam_pull_capacity: Fixed,
}

impl Cell {
    pub open spec fn spec_new(core: usize, position: Position) -> Cell {
        Cell {
            core,
            position,
            control_rod: Fixed::zero(),
            coolant_level: Fixed::zero(),
            local_reactivity: Fixed::zero(),
            reactivity: Fixed::zero(),
            temperature: Fixed::zero(),
            steam_level: Fixed::zero(),
            steam_output: Fixed::zero(),
            pressure: Fixed::zero(),
            coolant_flow: Fixed::zero(),
            steam_pull_capacity: Fixed::zero(),
        }
    }

    /// A cell of core `core` at `position` with every quantity at zero.
    #[verifier::when_used_as_spec(spec_new)]
    pub fn new(core: usize, position: Position) -> (r: Cell)
        ensures
            r == Self::spec_new(core, position),
    {
        Cell {
            core,
            position,
            control_rod: Fixed::zero(),
            coolant_level: Fixed::zero(),
            local_reactivity: Fixed::zero(),
            reactivity: Fixed::zero(),
            temperature: Fixed::zero(),
            steam_level: Fixed::zero(),
            steam_output: Fixed::zero(),
            pressure: Fixed::zero(),
            coolant_flow: Fixed::zero(),
            steam_pull_capacity: Fixed::zero(),
        }
    }

    /// Reactivity that rod and coolant alone give the cell: the base value,
    /// lowered by the rod's insertion and raised by the loss of coolant.
    pub open spec fn spec_local_reactivity(self, config: SimulationConfig) -> Fixed {
        let rod_factor = Fixed::one().minus(self.control_rod);
        let coolant_factor = Fixed::one().plus(
            config.void_reactivity_boost.times(Fixed::one().minus(self.coolant_level)),
        );
        config.base_reactivity.times(rod_factor).times(coolant_factor)
    }

    /// The cell with its local reactivity computed anew.
    pub open spec fn with_local_reactivity(self, config: SimulationConfig) -> Cell {
        Cell { local_reactivity: self.spec_local_reactivity(config), ..self }
    }

    /// Recomputes the local reactivity; nothing else changes.
    pub fn update_local_reactivity(&mut self, config: &SimulationConfig)
        ensures
            *final(self) == old(self).with_local_reactivity(*config),
    {
        let rod_factor = Fixed::one().minus(self.control_rod);
        let coolant_factor = Fixed::one().plus(
            config.void_reactivity_boost.times(Fixed::one().minus(self.coolant_level)),
        );
        self.local_reactivity = config.base_reactivity.times(rod_factor).times(coolant_factor);
    }

    /// The cell with its total reactivity set from the local one and the sum
    /// of the adjacent edges' reactivities.
    pub open spec fn with_total_reactivity(
        self,
        config: SimulationConfig,
        neighbor_sum: Fixed,
    ) -> Cell {
        Cell {
            reactivity: self.local_reactivity.plus(
                neighbor_sum.times(config.reactivity_neighbor_coupling_factor),
            ),
            ..self
        }
    }

    /// Sets the total reactivity; nothing else changes.
    pub fn update_total_reactivity(&mut self, config: &SimulationConfig, neighbor_sum: Fixed)
        ensures
            *final(self) == old(self).with_total_reactivity(*config, neighbor_sum),
    {
        let neighbor_boost = neighbor_sum.times(config.reactivity_neighbor_coupling_factor);
        self.reactivity = self.local_reactivity.plus(neighbor_boost);
    }

    /// Temperature after one tick of heating and cooling: the heat that the
    /// total reactivity generates, less what the coolant carries off, less
    /// what leaks to surroundings at `ambient_temperature`.
    pub open spec fn spec_next_temperature(
        self,
        config: SimulationConfig,
        ambient_temperature: Fixed,
    ) -> Fixed {
        let heat_gain = self.reactivity.times(config.heat_generation_factor);
        let heat_loss = self.coolant_level.times(config.coolant_efficiency).times(
            self.temperature.minus(config.coolant_temperature),
        );
        let passive_heat_loss = self.temperature.minus(ambient_temperature).times(
            config.temperature_passive_decay_rate,
        );
        self.temperature.plus(heat_gain.minus(heat_loss).minus(passive_heat_loss))
    }

    /// The cell after one tick of heating and cooling.
    pub open spec fn with_next_temperature(
        self,
        config: SimulationConfig,
        ambient_temperature: Fixed,
    ) -> Cell {
        Cell { temperature: self.spec_next_temperature(config, ambient_temperature), ..self }
    }

    /// Heats and cools the cell for one tick; only the temperature changes.
    pub fn update_temperature(&mut self, config: &SimulationConfig, ambient_temperature: Fixed)
        ensures
            *final(self) == old(self).with_next_temperature(*config, ambient_temperature),
    {
        let heat_gain = self.reactivity.times(config.heat_generation_factor);
        let coolant_temp_diff = self.temperature.minus(config.coolant_temperature);
        let heat_loss = self.coolant_level.times(config.coolant_efficiency).times(
            coolant_temp_diff,
        );
        let ambient_temp_diff = self.temperature.minus(ambient_temperature);
        let passive_heat_loss = ambient_temp_diff.times(config.temperature_passive_decay_rate);
        self.temperature = self.temperature.plus(
            heat_gain.minus(heat_loss).minus(passive_heat_loss),
        );
    }

    /// Coolant that boils off in one tick: nothing unless the cell is above
    /// its boiling point and holds coolant; else what the heat above the
    /// boiling point can vaporise, at most all the coolant there is.
    pub open spec fn spec_coolant_boiled(self, config: SimulationConfig) -> Fixed {
        let boiling_point = boiling_point(self.pressure);
        if self.temperature@ > boiling_point@ && self.coolant_level@ > 0 {
            let available_energy = self.temperature.minus(boiling_point).times(
                config.energy_per_heat_unit,
            );
            available_energy.over(config.energy_required_per_unit).min(self.coolant_level)
        } else {
            Fixed::zero()
        }
    }

    /// The cell after the coolant that boils off has turned into steam.
    pub open spec fn boiled(self, config: SimulationConfig) -> Cell {
        let boiling_point = boiling_point(self.pressure);
        if self.temperature@ > boiling_point@ && self.coolant_level@ > 0 {
            let coolant_boiled = self.spec_coolant_boiled(config);
            Cell {
                coolant_level: self.coolant_level.minus(coolant_boiled),
                steam_level: self.steam_level.plus(coolant_boiled),
                ..self
            }
        } else {
            self
        }
    }

    /// Turns the coolant that boils off into steam; nothing else changes.
    pub fn boil(&mut self, config: &SimulationConfig)
        ensures
            *final(self) == old(self).boiled(*config),
    {
        let boiling_point = boiling_point(self.pressure);
        if self.temperature.micros > boiling_point.micros && self.coolant_level.micros > 0 {
            let heat_excess = self.temperature.minus(boiling_point);
            let available_energy = heat_excess.times(config.energy_per_heat_unit);
            let max_steam_from_energy = available_energy.over(config.energy_required_per_unit);
            let coolant_boiled = max_steam_from_energy.min(self.coolant_level);
            self.coolant_level = self.coolant_level.minus(coolant_boiled);
            self.steam_level = self.steam_level.plus(coolant_boiled);
        }
    }

    /// Pressure of the cell's steam before the pressure curve is applied: the
    /// gas it makes, times the absolute temperature (never below zero), over
    /// the room that the coolant leaves (never below a hundredth).
    pub open spec fn spec_raw_pressure(self, config: SimulationConfig) -> Fixed {
        let available_space = Fixed::one().minus(self.coolant_level).max(Fixed { micros: 10_000 });
        let gas_amount = self.steam_level.times(config.steam_expansion_ratio);
        let temp_kelvin = self.temperature.plus(Fixed { micros: 273_150_000 }).max(Fixed::zero());
        gas_amount.times(temp_kelvin).over(available_space)
    }

    pub fn raw_pressure(&self, config: &SimulationConfig) -> (r: Fixed)
        ensures
            r == self.spec_raw_pressure(*config),
    {
        let available_space = Fixed::one().minus(self.coolant_level).max(
            Fixed::from_micros(10_000),
        );
        let gas_amount = self.steam_level.times(config.steam_expansion_ratio);
        let temp_kelvin = self.temperature.plus(Fixed::from_micros(273_150_000)).max(
            Fixed::zero(),
        );
        gas_amount.times(temp_kelvin).over(available_space)
    }

    /// Pressure of the cell once the curve has turned its raw pressure into
    /// `curved_pressure`.
    pub open spec fn spec_pressure(config: SimulationConfig, curved_pressure: Fixed) -> Fixed {
        config.nominal_pressure.plus(curved_pressure.times(config.pressure_scale))
    }

    /// Steam that leaves a cell under `pressure`: only what overflows the
    /// cell's volume, at most what there is and what the consumer can take,
    /// and never less than nothing.
    pub open spec fn spec_steam_output(self, config: SimulationConfig, pressure: Fixed) -> Fixed {
        let potential_steam_output = potential_output(
            self.steam_pull_capacity,
            config.steam_pull_factor,
            pressure,
            config.nominal_pressure,
        );
        let volume_excess = self.coolant_level.plus(self.steam_level).minus(Fixed::one()).max(
            Fixed::zero(),
        );
        self.steam_level.min(volume_excess).min(potential_steam_output).max(Fixed::zero())
    }

    /// Coolant that flows in once `steam_level` is what is left of the steam:
    /// the flow offered, at most the room that is left.
    pub open spec fn spec_coolant_added(self, steam_level: Fixed) -> Fixed {
        let space_remaining = Fixed::one().minus(self.coolant_level.plus(steam_level));
        self.coolant_flow.min(space_remaining)
    }

    /// The cell after its pressure is set from `curved_pressure`, steam is
    /// drawn off and coolant has flowed in.
    pub open spec fn settled(self, config: SimulationConfig, curved_pressure: Fixed) -> Cell {
        let pressure = Self::spec_pressure(config, curved_pressure);
        let steam_output = self.spec_steam_output(config, pressure);
        let steam_level = self.steam_level.minus(steam_output);
        Cell {
            pressure,
            steam_output,
            steam_level,
            coolant_level: self.coolant_level.plus(self.spec_coolant_added(steam_level)),
            ..self
        }
    }

    /// Sets the pressure from `curved_pressure`, draws steam off and lets
    /// coolant in.
    pub fn settle(&mut self, config: &SimulationConfig, curved_pressure: Fixed)
        ensures
            *final(self) == old(self).settled(*config, curved_pressure),
    {
        self.pressure = config.nominal_pressure.plus(curved_pressure.times(config.pressure_scale));
        let potential_steam_output = potential_output(
            self.steam_pull_capacity,
            config.steam_pull_factor,
            self.pressure,
            config.nominal_pressure,
        );
        let volume_excess = self.coolant_level.plus(self.steam_level).minus(Fixed::one()).max(
            Fixed::zero(),
        );
        self.steam_output = self.steam_level.min(volume_excess).min(potential_steam_output).max(
            Fixed::zero(),
        );
        self.steam_level = self.steam_level.minus(self.steam_output);
        let space_remaining = Fixed::one().minus(self.coolant_level.plus(self.steam_level));
        let added_coolant = self.coolant_flow.min(space_remaining);
        self.coolant_level = self.coolant_level.plus(added_coolant);
    }

    /// The cell after the whole steam stage, where the curve has turned the
    /// raw pressure of the boiled cell into `curved_pressure`.
    pub open spec fn steamed(self, config: SimulationConfig, curved_pressure: Fixed) -> Cell {
        self.boiled(config).settled(config, curved_pressure)
    }

    /// Whether `after` is the cell after the whole steam stage for some value
    /// that `curve` may return for the raw pressure of the boiled cell and
    /// the configured exponent.
    pub open spec fn steamed_through<F: Fn(Fixed, Fixed) -> Fixed>(
        self,
        config: SimulationConfig,
        curve: F,
        after: Cell,
    ) -> bool {
        exists|curved_pressure: Fixed|
            call_ensures(
                curve,
                (self.boiled(config).spec_raw_pressure(config), config.pressure_curve_exponent),
                curved_pressure,
            ) && after == #[trigger] self.steamed(config, curved_pressure)
    }

    /// Runs the steam stage on the cell: boils coolant off, asks `curve` for
    /// the raw pressure raised to the configured exponent, then sets the
    /// pressure, draws steam off and lets coolant in.
    ///
    /// `curve` takes a base and an exponent and must accept the raw pressure
    /// of the boiled cell with the configured exponent. Whatever it returns
    /// stands for the power in the result.
    pub fn generate_steam<F: Fn(Fixed, Fixed) -> Fixed>(
        &mut self,
        config: &SimulationConfig,
        curve: &F,
    )
        requires
            curve.requires(
                (
                    old(self).boiled(*config).spec_raw_pressure(*config),
                    config.pressure_curve_exponent,
                ),
            ),
        ensures
            old(self).steamed_through(*config, *curve, *final(self)),
            old(self).coolant_level@ + old(self).steam_level@ <= i64::MAX
                ==> final(self).coolant_level@ + final(self).steam_level@ <= SCALE,
    {
        self.boil(config);
        let raw_pressure = self.raw_pressure(config);
        let curved_pressure = curve(raw_pressure, config.pressure_curve_exponent);
        self.settle(config, curved_pressure);
        proof {
            assert(call_ensures(
                *curve,
                (raw_pressure, config.pressure_curve_exponent),
                curved_pressure,
            ) && *self == old(self).steamed(*config, curved_pressure));
            if old(self).coolant_level@ + old(self).steam_level@ <= i64::MAX {
                steam_stage_bounds_volume(*old(self), *config, curved_pressure);
            }
        }
    }
}

/// A cell whose control rod is fully inserted has no local reactivity,
/// whatever its coolant level and the configuration.
pub proof fn inserted_rod_silences_cell(cell: Cell, config: SimulationConfig)
    requires
        cell.control_rod == Fixed::one(),
    ensures
        cell.spec_local_reactivity(config) == Fixed::zero(),
{
    times_zero(config.base_reactivity);
    let coolant_factor = Fixed::one().plus(
        config.void_reactivity_boost.times(Fixed::one().minus(cell.coolant_level)),
    );
    times_zero(coolant_factor);
}

/// A cell without reactivity that is as warm as both its coolant and its
/// surroundings keeps its temperature.
pub proof fn cell_at_rest_keeps_temperature(
    cell: Cell,
    config: SimulationConfig,
    ambient_temperature: Fixed,
)
    requires
        cell.reactivity == Fixed::zero(),
        cell.temperature == config.coolant_temperature,
        cell.temperature == ambient_temperature,
    ensures
        cell.spec_next_temperature(config, ambient_temperature) == cell.temperature,
{
    times_zero(config.heat_generation_factor);
    times_zero(cell.coolant_level.times(config.coolant_efficiency));
    times_zero(config.temperature_passive_decay_rate);
}

/// Largest magnitude, in millionths, up to which the difference of two
/// temperatures is certain to be representable.
pub open spec fn temperature_window() -> int {
    0x3fff_ffff_ffff_ffff
}

/// A cell without reactivity that is at least as warm as its coolant and
/// its surroundings does not heat up, and does not cool below the colder of
/// the two, as long as the two cooling rates are shares that add up to no
/// more than one and the temperatures lie within the window.
pub proof fn cell_without_reactivity_cools_towards_its_references(
    cell: Cell,
    config: SimulationConfig,
    ambient_temperature: Fixed,
)
    requires
        cell.reactivity == Fixed::zero(),
        cell.temperature@ >= config.coolant_temperature@,
        cell.temperature@ >= ambient_temperature@,
        cell.temperature@ <= temperature_window(),
        config.coolant_temperature@ >= -temperature_window(),
        ambient_temperature@ >= -temperature_window(),
        cell.coolant_level.times(config.coolant_efficiency)@ >= 0,
        config.temperature_passive_decay_rate@ >= 0,
        cell.coolant_level.times(config.coolant_efficiency)@
            + config.temperature_passive_decay_rate@ <= SCALE,
    ensures
        cell.spec_next_temperature(config, ambient_temperature)@ <= cell.temperature@,
        cell.spec_next_temperature(config, ambient_temperature)@
            >= config.coolant_temperature@ || cell.spec_next_temperature(
            config,
            ambient_temperature,
        )@ >= ambient_temperature@,
{
    times_zero(config.heat_generation_factor);
    let scale = SCALE as int;
    let rate = cell.coolant_level.times(config.coolant_efficiency)@;
    let decay = config.temperature_passive_decay_rate@;
    let above_coolant = cell.temperature@ - config.coolant_temperature@;
    let above_ambient = cell.temperature@ - ambient_temperature@;
    let above = if above_coolant >= above_ambient { above_coolant } else { above_ambient };
    let heat_loss = (rate * above_coolant) / scale;
    let passive_heat_loss = (above_ambient * decay) / scale;
    assert(0 <= rate * above_coolant <= rate * above) by (nonlinear_arith)
        requires
            0 <= rate,
            0 <= above_coolant <= above,
    ;
    assert(0 <= above_ambient * decay <= decay * above) by (nonlinear_arith)
        requires
            0 <= decay,
            0 <= above_ambient <= above,
    ;
    assert(rate * above + decay * above <= scale * above) by (nonlinear_arith)
        requires
            rate + decay <= scale,
            0 <= above,
    ;
    vstd::arithmetic::div_mod::lemma_fundamental_div_mod(rate * above_coolant, scale);
    vstd::arithmetic::div_mod::lemma_fundamental_div_mod(above_ambient * decay, scale);
    vstd::arithmetic::div_mod::lemma_mod_pos_bound(rate * above_coolant, scale);
    vstd::arithmetic::div_mod::lemma_mod_pos_bound(above_ambient * decay, scale);
    vstd::arithmetic::div_mod::lemma_div_pos_is_pos(rate * above_coolant, scale);
    vstd::arithmetic::div_mod::lemma_div_pos_is_pos(above_ambient * decay, scale);
    assert(scale * (heat_loss + passive_heat_loss) <= scale * above) by (nonlinear_arith)
        requires
            rate * above_coolant == scale * heat_loss + (rate * above_coolant) % scale,
            above_ambient * decay == scale * passive_heat_loss + (above_ambient * decay) % scale,
            0 <= (rate * above_coolant) % scale,
            0 <= (above_ambient * decay) % scale,
            rate * above_coolant <= rate * above,
            above_ambient * decay <= decay * above,
            rate * above + decay * above <= scale * above,
    ;
    assert(heat_loss + passive_heat_loss <= above) by (nonlinear_arith)
        requires
            scale * (heat_loss + passive_heat_loss) <= scale * above,
            scale > 0,
    ;
    assert(cell.coolant_level.times(config.coolant_efficiency).times(
        cell.temperature.minus(config.coolant_temperature),
    )@ == heat_loss);
    assert(cell.temperature.minus(ambient_temperature).times(
        config.temperature_passive_decay_rate,
    )@ == passive_heat_loss);
}

/// With everything else fixed, a higher pressure never lowers the steam that
/// the consumer can take, as long as neither the pull factor nor the nominal
/// pressure is negative.
pub proof fn potential_output_is_monotonic(
    capacity: Fixed,
    pull_factor: Fixed,
    nominal_pressure: Fixed,
    lower: Fixed,
    higher: Fixed,
)
    requires
        pull_factor@ >= 0,
        nominal_pressure@ >= 0,
        lower@ <= higher@,
    ensures
        potential_output(capacity, pull_factor, lower, nominal_pressure)@ <= potential_output(
            capacity,
            pull_factor,
            higher,
            nominal_pressure,
        )@,
{
    over_is_monotonic(lower, higher, nominal_pressure);
    times_is_monotonic(
        pull_factor,
        lower.over(nominal_pressure),
        higher.over(nominal_pressure),
    );
}

/// The steam that the consumer can take never exceeds its capacity.
pub proof fn potential_output_is_capped(
    capacity: Fixed,
    pull_factor: Fixed,
    pressure: Fixed,
    nominal_pressure: Fixed,
)
    ensures
        potential_output(capacity, pull_factor, pressure, nominal_pressure)@ <= capacity@,
{
}

/// The steam drawn off is never negative, never more than the steam there
/// is unless there is less than none, and never more than the consumer's
/// capacity unless that is negative.
pub proof fn steam_output_is_bounded(cell: Cell, config: SimulationConfig, pressure: Fixed)
    ensures
        0 <= cell.spec_steam_output(config, pressure)@,
        cell.steam_level@ >= 0 ==> cell.spec_steam_output(config, pressure)@ <= cell.steam_level@,
        cell.steam_pull_capacity@ >= 0 ==> cell.spec_steam_output(config, pressure)@
            <= cell.steam_pull_capacity@,
{
}

/// After the steam stage, coolant and steam together fill no more than the
/// cell's volume, provided that their sum was representable before.
pub proof fn steam_stage_bounds_volume(cell: Cell, config: SimulationConfig, curved_pressure: Fixed)
    requires
        cell.coolant_level@ + cell.steam_level@ <= i64::MAX,
    ensures
        cell.steamed(config, curved_pressure).coolant_level@ + cell.steamed(
            config,
            curved_pressure,
        ).steam_level@ <= SCALE,
{
    let boiled = cell.boiled(config);
    assert(boiled.coolant_level@ + boiled.steam_level@ <= i64::MAX);
    let pressure = Cell::spec_pressure(config, curved_pressure);
    steam_output_is_bounded(boiled, config, pressure);
}

/// A cell that is not boiling and whose coolant and steam fit its volume
/// keeps both levels through the steam stage when no coolant flows in, and
/// gives no steam off.
pub proof fn idle_cell_keeps_levels(cell: Cell, config: SimulationConfig, curved_pressure: Fixed)
    requires
        cell.coolant_flow == Fixed::zero(),
        cell.temperature@ <= boiling_point(cell.pressure)@ || cell.coolant_level@ <= 0,
        cell.coolant_level@ + cell.steam_level@ <= SCALE,
    ensures
        cell.steamed(config, curved_pressure).coolant_level == cell.coolant_level,
        cell.steamed(config, curved_pressure).steam_level == cell.steam_level,
        cell.steamed(config, curved_pressure).steam_output == Fixed::zero(),
{
}

/// Whether the cell holds no less than no coolant and no steam, and no more
/// of both together than its volume.
pub open spec fn levels_are_sound(cell: Cell) -> bool {
    &&& 0 <= cell.coolant_level@
    &&& 0 <= cell.steam_level@
    &&& cell.coolant_level@ + cell.steam_level@ <= SCALE
}

/// Whether boiling takes energy and heat gives energy, as in nature.
pub open spec fn boiling_is_sound(config: SimulationConfig) -> bool {
    &&& config.energy_per_heat_unit@ >= 0
    &&& config.energy_required_per_unit@ >= 0
}

/// The coolant that boils off is never negative and never more than there
/// is, where the levels and the configuration are sound.
pub proof fn boiled_coolant_is_bounded(cell: Cell, config: SimulationConfig)
    requires
        levels_are_sound(cell),
        boiling_is_sound(config),
    ensures
        0 <= cell.spec_coolant_boiled(config)@ <= cell.coolant_level@,
{
    let boiling_point = boiling_point(cell.pressure);
    if cell.temperature@ > boiling_point@ && cell.coolant_level@ > 0 {
        let heat_excess = cell.temperature.minus(boiling_point);
        assert(heat_excess@ >= 0);
        let available_energy = heat_excess.times(config.energy_per_heat_unit);
        assert(heat_excess@ * config.energy_per_heat_unit@ >= 0) by (nonlinear_arith)
            requires
                heat_excess@ >= 0,
                config.energy_per_heat_unit@ >= 0,
        ;
        vstd::arithmetic::div_mod::lemma_div_pos_is_pos(
            heat_excess@ * config.energy_per_heat_unit@,
            SCALE as int,
        );
        assert(available_energy@ >= 0);
        if config.energy_required_per_unit@ > 0 {
            assert(available_energy@ * SCALE >= 0);
            vstd::arithmetic::div_mod::lemma_div_pos_is_pos(
                available_energy@ * SCALE,
                config.energy_required_per_unit@,
            );
        }
        assert(available_energy.over(config.energy_required_per_unit)@ >= 0);
    }
}

/// Volume is conserved: where the levels and the configuration are sound
/// and the inflow is not negative, the steam stage gives no steam off, and
/// coolant and steam together grow by the inflow, up to the cell's volume.
/// The levels are sound again afterwards.
pub proof fn steam_stage_conserves_volume(
    cell: Cell,
    config: SimulationConfig,
    curved_pressure: Fixed,
)
    requires
        levels_are_sound(cell),
        boiling_is_sound(config),
        cell.coolant_flow@ >= 0,
    ensures
        levels_are_sound(cell.steamed(config, curved_pressure)),
        cell.steamed(config, curved_pressure).steam_output == Fixed::zero(),
        cell.steamed(config, curved_pressure).coolant_level@ + cell.steamed(
            config,
            curved_pressure,
        ).steam_level@ == if cell.coolant_level@ + cell.steam_level@ + cell.coolant_flow@ <= SCALE {
            cell.coolant_level@ + cell.steam_level@ + cell.coolant_flow@
        } else {
            SCALE as int
        },
{
    boiled_coolant_is_bounded(cell, config);
    let boiled = cell.boiled(config);
    assert(levels_are_sound(boiled));
    assert(boiled.coolant_level@ + boiled.steam_level@ == cell.coolant_level@ + cell.steam_level@);
}

} // verus!
