//! Two rigid blocks and a fixed wall on a line, colliding elastically.
//!
//! A small block of mass one sits between a wall and a large block of mass
//! `10^k`. Counting every collision until the blocks part for good yields the
//! leading digits of pi. All quantities are whole numbers: positions in
//! position units, durations in time units, velocities in position units per
//! time unit. The caller picks the units; the finer they are, the closer the
//! run follows the ideal motion.
//!
//! * [`numeric`]: rounding towards zero and narrowing.
//! * [`mass`]: powers of ten for the large block's mass.
//! * [`model`]: the state, its mathematical view and its construction.
//! * [`resolver`]: contact detection, elastic resolution, wall reflection and
//!   penetration correction.
//! * [`integrator`]: the per-tick loop and its substep gating.
//! * [`laws`]: theorems about the above.
pub mod numeric;
pub mod mass;
pub mod model;
pub mod resolver;
pub mod integrator;
pub mod laws;
