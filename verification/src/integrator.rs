//! The per-tick loop: how many substeps a tick runs, and what one substep
//! does.
use crate::mass::{lemma_mass_bounds, mass_of};
use crate::model::{BlockModel, SimulationModel, SimulationState};
use crate::laws::{lemma_tick_counter_monotonic, lemma_tick_free_of_penetration};
use crate::numeric::narrow;
use vstd::prelude::*;

verus! {

/// Why a tick left the state as it was.
#[derive(Clone, Copy, Debug, PartialEq, Eq)]
pub enum TickError {
    /// The duration is below zero.
    NegativeDuration,
    /// A position, a velocity or the counter would have left the range of
    /// the machine's integers.
    OutOfRange,
}

impl SimulationModel {
    /// The large block's left edge is within one small block's width of the
    /// wall.
    pub open spec fn in_collision_zone(self) -> bool {
        !(self.distance_to_wall() > self.small_block.size())
    }

    /// Substeps in the next tick: one while the large block is far from the
    /// wall, and as many as the large block's mass, `10^mass_exponent`, once
    /// it is in the collision zone.
    pub open spec fn substep_count(self) -> nat {
        if self.in_collision_zone() {
            mass_of(self.mass_exponent) as nat
        } else {
            1
        }
    }

    /// Both blocks move for the duration `dt` at their velocities.
    pub open spec fn advance(self, dt: int) -> SimulationModel {
        SimulationModel {
            small_block: BlockModel {
                position: self.small_block.position + self.small_block.velocity * dt,
                ..self.small_block
            },
            large_block: BlockModel {
                position: self.large_block.position + self.large_block.velocity * dt,
                ..self.large_block
            },
            ..self
        }
    }

    /// One substep: the blocks move, then the resolver passes over them.
    pub open spec fn substep(self, dt: int) -> SimulationModel {
        self.advance(dt).resolve()
    }

    /// Every value that one substep forms fits the machine's integers.
    pub open spec fn substep_fits(self, dt: int) -> bool {
        &&& self.advance(dt).representable()
        &&& self.advance(dt).resolve_fits()
    }

    /// `count` substeps in a row, each over the whole duration `dt`.
    pub open spec fn run(self, dt: int, count: nat) -> SimulationModel
        decreases count,
    {
        if count == 0 {
            self
        } else {
            self.substep(dt).run(dt, (count - 1) as nat)
        }
    }

    /// Every value that `count` substeps in a row form fits the machine's
    /// integers.
    pub open spec fn run_fits(self, dt: int, count: nat) -> bool
        decreases count,
    {
        count == 0 || (self.substep_fits(dt) && self.substep(dt).run_fits(
            dt,
            (count - 1) as nat,
        ))
    }

    /// The blocks have parted for good: the small block is clear of the wall
    /// and of the large block, does not move towards the wall, and the large
    /// block is not slower than it.
    pub open spec fn parted(self) -> bool {
        &&& 0 <= self.small_block.velocity <= self.large_block.velocity
        &&& self.wall_x < self.small_block.left_edge()
        &&& self.small_block.right_edge() < self.large_block.left_edge()
    }

    /// A tick can be carried out: the duration is not negative and nothing
    /// leaves the range of the machine's integers on the way.
    pub open spec fn tick_succeeds(self, dt: int) -> bool {
        dt >= 0 && self.run_fits(dt, self.substep_count())
    }

    /// The state after a tick of duration `dt`: the gated number of substeps
    /// if the tick can be carried out, the state as it was if not.
    pub open spec fn tick(self, dt: int) -> SimulationModel {
        if self.tick_succeeds(dt) {
            self.run(dt, self.substep_count())
        } else {
            self
        }
    }
}

impl SimulationState {
    /// Whether the large block's left edge is within one small block's width
    /// of the wall.
    pub fn in_collision_zone(&self) -> (r: bool)
        ensures
            r == self@.in_collision_zone(),
    {
        !(self.distance_to_wall() > self.small_block().size())
    }

    /// How many substeps the next tick runs: one outside the collision zone,
    /// `10^mass_exponent` inside.
    pub fn substep_count(&self) -> (r: u64)
        ensures
            r == self@.substep_count(),
    {
        proof {
            use_type_invariant(self);
            lemma_mass_bounds(self@.mass_exponent);
        }
        if self.in_collision_zone() {
            self.large_block().mass
        } else {
            1
        }
    }

    /// Moves both blocks for the duration `dt` at their velocities. `None`
    /// if a new position would not fit.
    pub fn advance(&self, dt: i64) -> (r: Option<SimulationState>)
        ensures
            match r {
                Some(next) => next@ == self@.advance(dt as int) && self@.advance(
                    dt as int,
                ).representable(),
                None => !self@.advance(dt as int).representable(),
            },
    {
        let small = self.small_block();
        let large = self.large_block();
        let small_position = narrow(small.position as i128 + travel(small.velocity, dt));
        let large_position = narrow(large.position as i128 + travel(large.velocity, dt));
        match (small_position, large_position) {
            (Some(p_small), Some(p_large)) => Some(
                self.with_motion(
                    p_small,
                    small.velocity,
                    p_large,
                    large.velocity,
                    self.collision_count(),
                ),
            ),
            _ => None,
        }
    }

    /// One substep: moves the blocks for the duration `dt`, then resolves
    /// contacts and corrects penetration. `None` if a value formed on the way
    /// would not fit.
    pub fn substep(&self, dt: i64) -> (r: Option<SimulationState>)
        ensures
            match r {
                Some(next) => next@ == self@.substep(dt as int) && self@.substep_fits(dt as int),
                None => !self@.substep_fits(dt as int),
            },
    {
        match self.advance(dt) {
            Some(moved) => moved.resolve(),
            None => None,
        }
    }

    /// Whether the blocks have parted for good: the small block is clear of
    /// the wall and of the large block, does not move towards the wall, and
    /// the large block is not slower than it. From then on no tick counts
    /// another collision.
    pub fn parted(&self) -> (r: bool)
        ensures
            r == self@.parted(),
    {
        let small = self.small_block();
        let large = self.large_block();
        0 <= small.velocity && small.velocity <= large.velocity && (self.wall_x() as i128)
            < small.left_edge() && small.right_edge() < large.left_edge()
    }

    /// Advances the simulation by one tick of duration `dt` and returns the
    /// number of substeps it ran. Each substep covers the whole of `dt`, not
    /// a share of it: inside the collision zone simulated time runs
    /// `10^mass_exponent` times as fast, so that the many collisions there
    /// take a bounded number of ticks. Such a tick costs as many substeps,
    /// which a caller with a frame rate to keep has to reckon with.
    ///
    /// A negative duration is refused. If a position, a velocity or the
    /// counter would leave the range of the machine's integers in any
    /// substep, the tick is refused as a whole. A refused tick leaves the
    /// state as it was.
    pub fn tick(&mut self, dt: i64) -> (r: Result<u64, TickError>)
        ensures
            final(self)@ == old(self)@.tick(dt as int),
            final(self)@.collision_count >= old(self)@.collision_count,
            r is Ok ==> final(self)@.free_of_penetration() == final(self)@.has_room(),
            match r {
                Ok(substeps) => old(self)@.tick_succeeds(dt as int) && substeps == old(
                    self,
                )@.substep_count(),
                Err(TickError::NegativeDuration) => dt < 0,
                Err(TickError::OutOfRange) => dt >= 0 && !old(self)@.run_fits(
                    dt as int,
                    old(self)@.substep_count(),
                ),
            },
    {
        let ghost start = self@;
        proof {
            use_type_invariant(&*self);
            lemma_tick_counter_monotonic(start, dt as int);
            if start.tick_succeeds(dt as int) {
                lemma_tick_free_of_penetration(start, dt as int);
            }
        }
        if dt < 0 {
            return Err(TickError::NegativeDuration);
        }
        let count: u64 = self.substep_count();
        let mut current: SimulationState = *self;
        let mut done: u64 = 0;
        while done < count
            invariant
                dt >= 0,
                self@ == start,
                start == old(self)@,
                count == start.substep_count(),
                done <= count,
                start.run_fits(dt as int, count as nat) == current@.run_fits(
                    dt as int,
                    (count - done) as nat,
                ),
                start.run_fits(dt as int, count as nat) ==> start.run(dt as int, count as nat)
                    == current@.run(dt as int, (count - done) as nat),
            decreases count - done,
        {
            match current.substep(dt) {
                Some(next) => {
                    current = next;
                    done = done + 1;
                },
                None => {
                    return Err(TickError::OutOfRange);
                },
            }
        }
        *self = current;
        Ok(count)
    }
}

/// How far a block travels at `velocity` in the duration `dt`.
fn travel(velocity: i64, dt: i64) -> (r: i128)
    ensures
        r == velocity * dt,
        -0x4000_0000_0000_0000_0000_0000_0000_0000 <= r
            <= 0x4000_0000_0000_0000_0000_0000_0000_0000,
{
    assert(-0x4000_0000_0000_0000_0000_0000_0000_0000 <= velocity * dt
        <= 0x4000_0000_0000_0000_0000_0000_0000_0000) by (nonlinear_arith)
        requires
            -0x8000_0000_0000_0000 <= velocity <= 0x8000_0000_0000_0000,
            -0x8000_0000_0000_0000 <= dt <= 0x8000_0000_0000_0000,
    ;
    (velocity as i128) * (dt as i128)
}

} // verus!
