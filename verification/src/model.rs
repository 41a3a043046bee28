//! The simulation state, its mathematical view, and its construction.
use crate::mass::{large_block_mass, mass_of, MAX_MASS_EXPONENT};
use vstd::prelude::*;

verus! {

/// A block as a mathematical value: unbounded integers.
pub struct BlockModel {
    /// Where the centre of the block is.
    pub position: int,
    /// Position units travelled per time unit; negative towards the wall.
    pub velocity: int,
    /// Distance from the centre to either edge.
    pub half_size: int,
    pub mass: int,
}

impl BlockModel {
    pub open spec fn size(self) -> int {
        2 * self.half_size
    }

    pub open spec fn left_edge(self) -> int {
        self.position - self.half_size
    }

    pub open spec fn right_edge(self) -> int {
        self.position + self.half_size
    }

    /// Position and velocity fit the machine's integers.
    pub open spec fn representable(self) -> bool {
        &&& i64::MIN <= self.position <= i64::MAX
        &&& i64::MIN <= self.velocity <= i64::MAX
    }
}

/// The whole simulation as a mathematical value.
pub struct SimulationModel {
    pub small_block: BlockModel,
    pub large_block: BlockModel,
    pub wall_x: int,
    pub mass_exponent: nat,
    pub collision_count: nat,
}

impl SimulationModel {
    /// What construction fixes for good: the sizes, the masses, the wall and
    /// the exponent. The wall leaves room to its right for the small block
    /// and half the large one, which is where the display puts them at most.
    pub open spec fn wf(self) -> bool {
        &&& 0 < self.small_block.half_size < self.large_block.half_size
        &&& self.large_block.size() <= i64::MAX
        &&& self.mass_exponent <= MAX_MASS_EXPONENT
        &&& self.small_block.mass == 1
        &&& self.large_block.mass == mass_of(self.mass_exponent)
        &&& i64::MIN <= self.wall_x
        &&& self.wall_x + self.small_block.size() + self.large_block.half_size <= i64::MAX
    }

    /// Positions, velocities and the counter fit the machine's integers.
    pub open spec fn representable(self) -> bool {
        &&& self.small_block.representable()
        &&& self.large_block.representable()
        &&& self.collision_count <= u64::MAX
    }

    /// Two models that differ at most in what moves: positions, velocities
    /// and the counter.
    pub open spec fn same_setup(self, other: SimulationModel) -> bool {
        &&& self.small_block.half_size == other.small_block.half_size
        &&& self.small_block.mass == other.small_block.mass
        &&& self.large_block.half_size == other.large_block.half_size
        &&& self.large_block.mass == other.large_block.mass
        &&& self.wall_x == other.wall_x
        &&& self.mass_exponent == other.mass_exponent
    }

    /// Free space between the wall and the large block's left edge.
    pub open spec fn distance_to_wall(self) -> int {
        self.large_block.left_edge() - self.wall_x
    }

    /// The display shows the blocks at rest against the wall while the large
    /// block is closer to the wall than the small block is wide.
    pub open spec fn display_clamped(self) -> bool {
        self.distance_to_wall() < self.small_block.size()
    }

    /// Centres of the small and the large block as the display shows them.
    pub open spec fn display_positions(self) -> (int, int) {
        if self.display_clamped() {
            (
                self.wall_x + self.small_block.half_size,
                self.wall_x + self.small_block.size() + self.large_block.half_size,
            )
        } else {
            (self.small_block.position, self.large_block.position)
        }
    }

    /// The scene as the display shows it: the blocks at their displayed
    /// positions, all else as it is.
    pub open spec fn as_displayed(self) -> SimulationModel {
        SimulationModel {
            small_block: BlockModel { position: self.display_positions().0, ..self.small_block },
            large_block: BlockModel { position: self.display_positions().1, ..self.large_block },
            ..self
        }
    }
}

/// A block: a plain value.
#[derive(Clone, Copy, Debug, PartialEq, Eq)]
pub struct Block {
    pub position: i64,
    pub velocity: i64,
    pub half_size: i64,
    pub mass: u64,
}

impl View for Block {
    type V = BlockModel;

    open spec fn view(&self) -> BlockModel {
        BlockModel {
            position: self.position as int,
            velocity: self.velocity as int,
            half_size: self.half_size as int,
            mass: self.mass as int,
        }
    }
}

impl Block {
    pub fn size(&self) -> (r: i128)
        ensures
            r == self@.size(),
    {
        2 * (self.half_size as i128)
    }

    pub fn left_edge(&self) -> (r: i128)
        ensures
            r == self@.left_edge(),
    {
        self.position as i128 - self.half_size as i128
    }

    pub fn right_edge(&self) -> (r: i128)
        ensures
            r == self@.right_edge(),
    {
        self.position as i128 + self.half_size as i128
    }
}

/// What a simulation is built from. Sizes are full widths.
#[derive(Clone, Copy, Debug, PartialEq, Eq)]
pub struct Config {
    pub small_block_size: i64,
    pub large_block_size: i64,
    pub wall_x: i64,
    pub initial_small_position: i64,
    pub initial_large_position: i64,
    pub initial_small_velocity: i64,
    pub initial_large_velocity: i64,
    pub mass_exponent: i64,
}

/// Why a configuration is refused.
#[derive(Clone, Copy, Debug, PartialEq, Eq)]
pub enum ConfigError {
    /// The mass exponent is below zero.
    NegativeMassExponent,
    /// The mass exponent is above `MAX_MASS_EXPONENT`.
    MassExponentTooLarge,
    /// A size is not positive, or odd, so that the edges would fall between
    /// position units, or the large block is not the larger one.
    InvalidBlockSize,
    /// The small block does not start clear to the right of the wall, or the
    /// large block does not start clear to the right of the small one.
    InvalidLayout,
}

impl Config {
    pub open spec fn sizes_valid(self) -> bool {
        &&& 0 < self.small_block_size < self.large_block_size
        &&& self.small_block_size % 2 == 0
        &&& self.large_block_size % 2 == 0
    }

    pub open spec fn layout_valid(self) -> bool {
        &&& self.wall_x < self.initial_small_position - self.small_block_size / 2
        &&& self.initial_small_position + self.small_block_size / 2
            < self.initial_large_position - self.large_block_size / 2
    }

    /// The first reason to refuse this configuration, if there is one.
    pub open spec fn error(self) -> Option<ConfigError> {
        if self.mass_exponent < 0 {
            Some(ConfigError::NegativeMassExponent)
        } else if self.mass_exponent > MAX_MASS_EXPONENT {
            Some(ConfigError::MassExponentTooLarge)
        } else if !self.sizes_valid() {
            Some(ConfigError::InvalidBlockSize)
        } else if !self.layout_valid() {
            Some(ConfigError::InvalidLayout)
        } else {
            None
        }
    }

    /// The state that a valid configuration describes: blocks where and as
    /// fast as configured, no collision counted yet.
    pub open spec fn initial_model(self) -> SimulationModel {
        SimulationModel {
            small_block: BlockModel {
                position: self.initial_small_position as int,
                velocity: self.initial_small_velocity as int,
                half_size: self.small_block_size / 2,
                mass: 1,
            },
            large_block: BlockModel {
                position: self.initial_large_position as int,
                velocity: self.initial_large_velocity as int,
                half_size: self.large_block_size / 2,
                mass: mass_of(self.mass_exponent as nat),
            },
            wall_x: self.wall_x as int,
            mass_exponent: self.mass_exponent as nat,
            collision_count: 0,
        }
    }
}

/// The simulation: two blocks, the wall, the mass exponent and the number of
/// collisions so far. Only the integrator and the resolver produce new
/// states, so whatever construction fixed stays fixed.
#[derive(Clone, Copy, Debug, PartialEq, Eq)]
pub struct SimulationState {
    small_block: Block,
    large_block: Block,
    wall_x: i64,
    mass_exponent: u32,
    collision_count: u64,
}

impl View for SimulationState {
    type V = SimulationModel;

    closed spec fn view(&self) -> SimulationModel {
        SimulationModel {
            small_block: self.small_block@,
            large_block: self.large_block@,
            wall_x: self.wall_x as int,
            mass_exponent: self.mass_exponent as nat,
            collision_count: self.collision_count as nat,
        }
    }
}

impl SimulationState {
    /// Holds of every state there is: construction establishes it and no
    /// operation gives it up.
    #[verifier::type_invariant]
    pub open spec fn inv(self) -> bool {
        self@.wf()
    }

    /// The view of a state fits the machine's integers.
    pub proof fn lemma_representable(self)
        ensures
            self@.representable(),
    {
    }

    /// Builds the initial state, or says why the configuration is refused.
    pub fn new(config: Config) -> (r: Result<SimulationState, ConfigError>)
        ensures
            match r {
                Ok(state) => config.error() is None && state@ == config.initial_model(),
                Err(e) => config.error() == Some(e),
            },
    {
        if config.mass_exponent < 0 {
            return Err(ConfigError::NegativeMassExponent);
        }
        if config.mass_exponent > MAX_MASS_EXPONENT as i64 {
            return Err(ConfigError::MassExponentTooLarge);
        }
        if config.small_block_size <= 0 || config.large_block_size <= config.small_block_size
            || config.small_block_size % 2 != 0 || config.large_block_size % 2 != 0 {
            return Err(ConfigError::InvalidBlockSize);
        }
        let small_half: i64 = config.small_block_size / 2;
        let large_half: i64 = config.large_block_size / 2;
        let small_left: i128 = config.initial_small_position as i128 - small_half as i128;
        let small_right: i128 = config.initial_small_position as i128 + small_half as i128;
        let large_left: i128 = config.initial_large_position as i128 - large_half as i128;
        if !((config.wall_x as i128) < small_left && small_right < large_left) {
            return Err(ConfigError::InvalidLayout);
        }
        let exponent: u32 = config.mass_exponent as u32;
        match large_block_mass(exponent) {
            Some(mass) => Ok(
                SimulationState {
                    small_block: Block {
                        position: config.initial_small_position,
                        velocity: config.initial_small_velocity,
                        half_size: small_half,
                        mass: 1,
                    },
                    large_block: Block {
                        position: config.initial_large_position,
                        velocity: config.initial_large_velocity,
                        half_size: large_half,
                        mass,
                    },
                    wall_x: config.wall_x,
                    mass_exponent: exponent,
                    collision_count: 0,
                },
            ),
            None => Err(ConfigError::MassExponentTooLarge),
        }
    }

    /// The same setup with the blocks moved, their velocities changed and
    /// the counter set.
    pub(crate) fn with_motion(
        &self,
        small_position: i64,
        small_velocity: i64,
        large_position: i64,
        large_velocity: i64,
        collision_count: u64,
    ) -> (r: SimulationState)
        ensures
            r@ == (SimulationModel {
                small_block: BlockModel {
                    position: small_position as int,
                    velocity: small_velocity as int,
                    ..self@.small_block
                },
                large_block: BlockModel {
                    position: large_position as int,
                    velocity: large_velocity as int,
                    ..self@.large_block
                },
                collision_count: collision_count as nat,
                ..self@
            }),
    {
        proof {
            use_type_invariant(self);
        }
        SimulationState {
            small_block: Block {
                position: small_position,
                velocity: small_velocity,
                ..self.small_block
            },
            large_block: Block {
                position: large_position,
                velocity: large_velocity,
                ..self.large_block
            },
            wall_x: self.wall_x,
            mass_exponent: self.mass_exponent,
            collision_count,
        }
    }

    pub fn small_block(&self) -> (r: Block)
        ensures
            r@ == self@.small_block,
    {
        self.small_block
    }

    pub fn large_block(&self) -> (r: Block)
        ensures
            r@ == self@.large_block,
    {
        self.large_block
    }

    pub fn wall_x(&self) -> (r: i64)
        ensures
            r == self@.wall_x,
    {
        self.wall_x
    }

    pub fn mass_exponent(&self) -> (r: u32)
        ensures
            r == self@.mass_exponent,
    {
        self.mass_exponent
    }

    /// Collisions counted so far, block against block and block against wall.
    pub fn collision_count(&self) -> (r: u64)
        ensures
            r == self@.collision_count,
    {
        self.collision_count
    }

    /// Free space between the wall and the large block's left edge; negative
    /// once the large block has passed the wall.
    pub fn distance_to_wall(&self) -> (r: i128)
        ensures
            r == self@.distance_to_wall(),
    {
        self.large_block.left_edge() - self.wall_x as i128
    }

    /// Centres of the small and the large block for drawing. While the large
    /// block is closer to the wall than the small block is wide, the blocks
    /// are shown at rest against the wall. The state itself is not touched.
    pub fn display_positions(&self) -> (r: (i64, i64))
        ensures
            (r.0 as int, r.1 as int) == self@.display_positions(),
    {
        proof {
            use_type_invariant(self);
        }
        if self.distance_to_wall() < self.small_block.size() {
            let small: i128 = self.wall_x as i128 + self.small_block.half_size as i128;
            let large: i128 = self.wall_x as i128 + self.small_block.size()
                + self.large_block.half_size as i128;
            (small as i64, large as i64)
        } else {
            (self.small_block.position, self.large_block.position)
        }
    }
}

} // verus!
