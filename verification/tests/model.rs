use colliding_blocks::mass::{large_block_mass, MAX_MASS_EXPONENT};
use colliding_blocks::model::{Block, Config, ConfigError, SimulationState};

fn base() -> Config {
    Config {
        small_block_size: 40,
        large_block_size: 100,
        wall_x: -500,
        initial_small_position: 0,
        initial_large_position: 200,
        initial_small_velocity: 0,
        initial_large_velocity: -60,
        mass_exponent: 6,
    }
}

#[test]
fn mass_is_ten_to_the_exponent() {
    assert_eq!(large_block_mass(0), Some(1));
    assert_eq!(large_block_mass(1), Some(10));
    assert_eq!(large_block_mass(2), Some(100));
    assert_eq!(large_block_mass(6), Some(1_000_000));
    assert_eq!(large_block_mass(18), Some(1_000_000_000_000_000_000));
}

#[test]
fn mass_beyond_the_cap_is_refused() {
    assert_eq!(MAX_MASS_EXPONENT, 18);
    assert_eq!(large_block_mass(19), None);
    assert_eq!(large_block_mass(u32::MAX), None);
}

#[test]
fn new_state_holds_the_configuration() {
    let state = SimulationState::new(base()).unwrap();
    assert_eq!(
        state.small_block(),
        Block { position: 0, velocity: 0, half_size: 20, mass: 1 }
    );
    assert_eq!(
        state.large_block(),
        Block { position: 200, velocity: -60, half_size: 50, mass: 1_000_000 }
    );
    assert_eq!(state.wall_x(), -500);
    assert_eq!(state.mass_exponent(), 6);
    assert_eq!(state.collision_count(), 0);
}

#[test]
fn new_state_with_mass_exponent_zero_has_equal_masses() {
    let state = SimulationState::new(Config { mass_exponent: 0, ..base() }).unwrap();
    assert_eq!(state.small_block().mass, 1);
    assert_eq!(state.large_block().mass, 1);
}

#[test]
fn negative_mass_exponent_is_refused() {
    let r = SimulationState::new(Config { mass_exponent: -1, ..base() });
    assert_eq!(r, Err(ConfigError::NegativeMassExponent));
    let r = SimulationState::new(Config { mass_exponent: i64::MIN, ..base() });
    assert_eq!(r, Err(ConfigError::NegativeMassExponent));
}

#[test]
fn mass_exponent_above_the_cap_is_refused() {
    let r = SimulationState::new(Config { mass_exponent: 19, ..base() });
    assert_eq!(r, Err(ConfigError::MassExponentTooLarge));
    let r = SimulationState::new(Config { mass_exponent: 18, ..base() });
    assert_eq!(r.unwrap().large_block().mass, 1_000_000_000_000_000_000);
}

#[test]
fn bad_sizes_are_refused() {
    for (small, large) in [(0, 100), (-40, 100), (41, 100), (40, 101), (40, 40), (100, 40)] {
        let r = SimulationState::new(Config {
            small_block_size: small,
            large_block_size: large,
            ..base()
        });
        assert_eq!(r, Err(ConfigError::InvalidBlockSize));
    }
}

#[test]
fn bad_layouts_are_refused() {
    // The small block touches the wall.
    let r = SimulationState::new(Config { initial_small_position: -480, ..base() });
    assert_eq!(r, Err(ConfigError::InvalidLayout));
    // The small block is left of the wall.
    let r = SimulationState::new(Config { initial_small_position: -600, ..base() });
    assert_eq!(r, Err(ConfigError::InvalidLayout));
    // The blocks touch.
    let r = SimulationState::new(Config { initial_large_position: 70, ..base() });
    assert_eq!(r, Err(ConfigError::InvalidLayout));
    // The large block is left of the small one.
    let r = SimulationState::new(Config { initial_large_position: -100, ..base() });
    assert_eq!(r, Err(ConfigError::InvalidLayout));
    // One unit of clearance on either side is enough.
    let r = SimulationState::new(Config {
        initial_small_position: -479,
        initial_large_position: -408,
        ..base()
    });
    assert!(r.is_ok());
}

#[test]
fn errors_are_reported_in_a_fixed_order() {
    let r = SimulationState::new(Config {
        mass_exponent: -3,
        small_block_size: 0,
        initial_small_position: -600,
        ..base()
    });
    assert_eq!(r, Err(ConfigError::NegativeMassExponent));
    let r = SimulationState::new(Config {
        mass_exponent: 40,
        small_block_size: 0,
        initial_small_position: -600,
        ..base()
    });
    assert_eq!(r, Err(ConfigError::MassExponentTooLarge));
    let r = SimulationState::new(Config {
        small_block_size: 0,
        initial_small_position: -600,
        ..base()
    });
    assert_eq!(r, Err(ConfigError::InvalidBlockSize));
}

#[test]
fn layout_at_the_edge_of_the_integer_range() {
    let r = SimulationState::new(Config {
        wall_x: i64::MIN,
        initial_small_position: i64::MIN + 21,
        initial_large_position: i64::MAX,
        ..base()
    });
    let state = r.unwrap();
    assert_eq!(state.distance_to_wall(), (i64::MAX as i128 - 50) - i64::MIN as i128);
    let r = SimulationState::new(Config {
        wall_x: i64::MAX,
        initial_small_position: i64::MAX,
        initial_large_position: i64::MAX,
        ..base()
    });
    assert_eq!(r, Err(ConfigError::InvalidLayout));
}

#[test]
fn block_edges_lie_half_a_size_from_the_centre() {
    let block = Block { position: -7, velocity: 3, half_size: 20, mass: 1 };
    assert_eq!(block.left_edge(), -27);
    assert_eq!(block.right_edge(), 13);
    assert_eq!(block.size(), 40);
    let far = Block { position: i64::MAX, velocity: 0, half_size: i64::MAX, mass: 1 };
    assert_eq!(far.right_edge(), 2 * (i64::MAX as i128));
    assert_eq!(far.left_edge(), 0);
    assert_eq!(far.size(), 2 * (i64::MAX as i128));
}

#[test]
fn distance_to_wall_is_measured_from_the_large_blocks_left_edge() {
    let state = SimulationState::new(base()).unwrap();
    assert_eq!(state.distance_to_wall(), 650);
}

#[test]
fn display_shows_true_positions_away_from_the_wall() {
    let state = SimulationState::new(base()).unwrap();
    assert_eq!(state.display_positions(), (0, 200));
}

#[test]
fn display_clamps_only_below_one_small_block_width() {
    // The large block comes to rest with its left edge exactly one small
    // block's width from the wall: inside the collision zone, not clamped.
    let config = Config {
        wall_x: 0,
        initial_small_position: 21,
        initial_large_position: 200,
        initial_small_velocity: 0,
        initial_large_velocity: -110,
        mass_exponent: 0,
        ..base()
    };
    let state = SimulationState::new(config).unwrap();
    let moved = state.advance(1).unwrap();
    assert_eq!(moved.distance_to_wall(), 40);
    assert!(moved.in_collision_zone());
    assert_eq!(moved.display_positions(), (21, 90));
    // One unit closer and the display clamps.
    let state = SimulationState::new(Config { initial_large_velocity: -111, ..config }).unwrap();
    let moved = state.advance(1).unwrap();
    assert_eq!(moved.distance_to_wall(), 39);
    assert_eq!(moved.display_positions(), (20, 90));
    // Clamping is for show: the state keeps its positions.
    assert_eq!(moved.small_block().position, 21);
    assert_eq!(moved.large_block().position, 89);
}
