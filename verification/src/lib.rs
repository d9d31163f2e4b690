//! A discrete-time thermal and neutronic model of reactor cores laid out on
//! a square grid.
//!
//! A [`reactor::Reactor`] holds cores, cells and edges. One call of
//! [`reactor::Reactor::advance_tick`] takes it through six stages: local
//! reactivity of each cell, reactivity of each edge, total reactivity of
//! each cell, temperature of each edge, temperature of each cell, and the
//! boiling, pressure, steam output and coolant intake of each cell.
//!
//! Every physical quantity is a [`fixed::Fixed`]: a signed fixed-point number
//! with six decimal places whose arithmetic saturates at the ends of its
//! range. All contracts are stated over the integer count of millionths that
//! such a number holds.
//!
//! One step is left to the caller: the pressure curve, which raises a raw
//! pressure to the configured exponent. The steam stage takes it as a
//! function and says what it does with whatever that function returns.

pub mod cell;
pub mod config;
pub mod edge;
pub mod faults;
pub mod fixed;
pub mod guarantees;
pub mod position;
pub mod reactor;
pub mod stages;
pub mod topology;
