//! Contact detection, elastic resolution, wall reflection and penetration
//! correction: what happens to a state once the blocks have been moved.
use crate::mass::lemma_mass_bounds;
use crate::model::{BlockModel, SimulationModel, SimulationState};
use crate::numeric::{narrow, trunc_div};
use vstd::prelude::*;

verus! {

/// Velocity of the small block, of mass one, after an elastic collision with
/// a block of mass `m`: `((1 - m) * v_small + 2 * m * v_large) / (1 + m)`.
pub open spec fn small_velocity_after(m: int, v_small: int, v_large: int) -> int {
    trunc_div((1 - m) * v_small + 2 * m * v_large, 1 + m)
}

/// Velocity of the block of mass `m` after an elastic collision with the
/// small block, of mass one: `((m - 1) * v_large + 2 * v_small) / (1 + m)`.
pub open spec fn large_velocity_after(m: int, v_small: int, v_large: int) -> int {
    trunc_div((m - 1) * v_large + 2 * v_small, 1 + m)
}

impl SimulationModel {
    /// The blocks touch or overlap. The test is stated from either block's
    /// side, and both sides are the same comparison of the same two edges.
    pub open spec fn blocks_in_contact(self) -> bool {
        self.large_block.left_edge() <= self.small_block.right_edge()
            || self.small_block.right_edge() >= self.large_block.left_edge()
    }

    /// The small block touches the wall or has entered it.
    pub open spec fn wall_contact(self) -> bool {
        self.small_block.left_edge() <= self.wall_x
    }

    /// How far the small block reaches into the large one; zero if not at all.
    pub open spec fn block_overlap(self) -> int {
        if self.small_block.right_edge() > self.large_block.left_edge() {
            self.small_block.right_edge() - self.large_block.left_edge()
        } else {
            0
        }
    }

    /// How far the small block reaches into the wall; zero if not at all.
    pub open spec fn wall_overlap(self) -> int {
        if self.small_block.left_edge() < self.wall_x {
            self.wall_x - self.small_block.left_edge()
        } else {
            0
        }
    }

    /// The large block leaves the small one room between itself and the wall.
    pub open spec fn has_room(self) -> bool {
        self.distance_to_wall() >= self.small_block.size()
    }

    /// The small block reaches neither into the large block nor into the
    /// wall.
    pub open spec fn free_of_penetration(self) -> bool {
        &&& self.small_block.right_edge() <= self.large_block.left_edge()
        &&& self.small_block.left_edge() >= self.wall_x
    }

    /// The blocks exchange momentum elastically, and one collision is counted.
    pub open spec fn collide(self) -> SimulationModel {
        let m: int = self.large_block.mass;
        let v_small: int = self.small_block.velocity;
        let v_large: int = self.large_block.velocity;
        SimulationModel {
            small_block: BlockModel {
                velocity: small_velocity_after(m, v_small, v_large),
                ..self.small_block
            },
            large_block: BlockModel {
                velocity: large_velocity_after(m, v_small, v_large),
                ..self.large_block
            },
            collision_count: self.collision_count + 1,
            ..self
        }
    }

    /// The wall turns the small block round, and one collision is counted.
    pub open spec fn reflect(self) -> SimulationModel {
        SimulationModel {
            small_block: BlockModel { velocity: -self.small_block.velocity, ..self.small_block },
            collision_count: self.collision_count + 1,
            ..self
        }
    }

    /// The small block is pushed left out of the large block and right out of
    /// the wall, each by the overlap found before either push.
    pub open spec fn correct_penetration(self) -> SimulationModel {
        SimulationModel {
            small_block: BlockModel {
                position: self.small_block.position - self.block_overlap() + self.wall_overlap(),
                ..self.small_block
            },
            ..self
        }
    }

    /// The state after the collision between the blocks, if they are in
    /// contact.
    pub open spec fn after_block_contact(self) -> SimulationModel {
        if self.blocks_in_contact() {
            self.collide()
        } else {
            self
        }
    }

    /// The state after the collision between the blocks and the one with the
    /// wall, whichever apply.
    pub open spec fn after_wall_contact(self) -> SimulationModel {
        if self.wall_contact() {
            self.after_block_contact().reflect()
        } else {
            self.after_block_contact()
        }
    }

    /// One pass of the resolver: the collision between the blocks, then the
    /// one with the wall, then the correction, in that order. Both contacts
    /// are judged by the same positions, so both may apply in one pass.
    pub open spec fn resolve(self) -> SimulationModel {
        self.after_wall_contact().correct_penetration()
    }

    /// Every value that a pass of the resolver forms fits the machine's
    /// integers.
    pub open spec fn resolve_fits(self) -> bool {
        &&& self.after_block_contact().representable()
        &&& self.after_wall_contact().representable()
        &&& self.resolve().representable()
    }
}

/// The product of a factor made from a mass and a velocity.
fn scale(factor: i128, velocity: i64) -> (r: i128)
    requires
        -2_000_000_000_000_000_000 <= factor <= 2_000_000_000_000_000_000,
    ensures
        r == factor * velocity,
        -0x1_0000_0000_0000_0000 * 2_000_000_000_000_000_000 <= r
            <= 0x1_0000_0000_0000_0000 * 2_000_000_000_000_000_000,
{
    assert(-0x1_0000_0000_0000_0000 * 2_000_000_000_000_000_000 <= factor * velocity
        <= 0x1_0000_0000_0000_0000 * 2_000_000_000_000_000_000) by (nonlinear_arith)
        requires
            -2_000_000_000_000_000_000 <= factor <= 2_000_000_000_000_000_000,
            -0x8000_0000_0000_0000 <= velocity <= 0x8000_0000_0000_0000,
    ;
    factor * (velocity as i128)
}

impl SimulationState {
    /// Whether the blocks touch or overlap. Velocities play no part: blocks
    /// that still overlap while already parting are in contact.
    pub fn blocks_in_contact(&self) -> (r: bool)
        ensures
            r == self@.blocks_in_contact(),
    {
        let large_left: i128 = self.large_block().left_edge();
        let small_right: i128 = self.small_block().right_edge();
        large_left <= small_right || small_right >= large_left
    }

    /// Whether the small block touches the wall or has entered it.
    pub fn wall_contact(&self) -> (r: bool)
        ensures
            r == self@.wall_contact(),
    {
        self.small_block().left_edge() <= self.wall_x() as i128
    }

    /// Resolves an elastic collision between the blocks: new velocities by
    /// conservation of momentum and energy, rounded towards zero, and one
    /// more collision counted. `None` if a new velocity or the counter would
    /// not fit.
    pub fn collide(&self) -> (r: Option<SimulationState>)
        ensures
            match r {
                Some(next) => next@ == self@.collide() && self@.collide().representable(),
                None => !self@.collide().representable(),
            },
    {
        proof {
            use_type_invariant(self);
            lemma_mass_bounds(self@.mass_exponent);
        }
        let small = self.small_block();
        let large = self.large_block();
        let m: i128 = large.mass as i128;
        let small_numerator: i128 = scale(1 - m, small.velocity) + scale(2 * m, large.velocity);
        let large_numerator: i128 = scale(m - 1, large.velocity) + 2 * (small.velocity as i128);
        let small_velocity = narrow(small_numerator / (1 + m));
        let large_velocity = narrow(large_numerator / (1 + m));
        let count = self.collision_count().checked_add(1);
        match (small_velocity, large_velocity, count) {
            (Some(v_small), Some(v_large), Some(n)) => Some(
                self.with_motion(small.position, v_small, large.position, v_large, n),
            ),
            _ => None,
        }
    }

    /// Turns the small block round at the wall: its velocity changes sign
    /// and keeps its magnitude, and one more collision is counted. `None` if
    /// the negated velocity or the counter would not fit.
    pub fn reflect(&self) -> (r: Option<SimulationState>)
        ensures
            match r {
                Some(next) => next@ == self@.reflect() && self@.reflect().representable(),
                None => !self@.reflect().representable(),
            },
    {
        let small = self.small_block();
        let large = self.large_block();
        let velocity = narrow(-(small.velocity as i128));
        let count = self.collision_count().checked_add(1);
        match (velocity, count) {
            (Some(v), Some(n)) => Some(
                self.with_motion(small.position, v, large.position, large.velocity, n),
            ),
            _ => None,
        }
    }

    /// Removes what overlap is left: the small block is moved left by its
    /// overlap with the large block and right by its overlap with the wall,
    /// both measured before it is moved. Velocities and the counter stay.
    /// `None` if the new position would not fit.
    pub fn correct_penetration(&self) -> (r: Option<SimulationState>)
        ensures
            match r {
                Some(next) => next@ == self@.correct_penetration()
                    && self@.correct_penetration().representable(),
                None => !self@.correct_penetration().representable(),
            },
    {
        let small = self.small_block();
        let large = self.large_block();
        let large_left: i128 = large.left_edge();
        let small_left: i128 = small.left_edge();
        let small_right: i128 = small.right_edge();
        let wall: i128 = self.wall_x() as i128;
        let mut position: i128 = small.position as i128;
        if small_right > large_left {
            position = position - (small_right - large_left);
        }
        if small_left < wall {
            position = position + (wall - small_left);
        }
        match narrow(position) {
            Some(p) => Some(
                self.with_motion(
                    p,
                    small.velocity,
                    large.position,
                    large.velocity,
                    self.collision_count(),
                ),
            ),
            None => None,
        }
    }

    /// One pass of the resolver over a state whose blocks have just been
    /// moved: the collision between the blocks if they are in contact, then
    /// the reflection if the small block is at the wall, then the correction.
    /// `None` if a value formed on the way would not fit.
    pub fn resolve(&self) -> (r: Option<SimulationState>)
        ensures
            match r {
                Some(next) => next@ == self@.resolve() && self@.resolve_fits(),
                None => !self@.resolve_fits(),
            },
    {
        proof {
            self.lemma_representable();
        }
        let after_blocks = if self.blocks_in_contact() {
            match self.collide() {
                Some(next) => next,
                None => {
                    return None;
                },
            }
        } else {
            *self
        };
        let after_wall = if after_blocks.wall_contact() {
            match after_blocks.reflect() {
                Some(next) => next,
                None => {
                    return None;
                },
            }
        } else {
            after_blocks
        };
        after_wall.correct_penetration()
    }
}

} // verus!
