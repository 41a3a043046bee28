use colliding_blocks::model::{Config, SimulationState};
use colliding_blocks::numeric::narrow;

fn state(k: i64, small: (i64, i64), large: (i64, i64)) -> SimulationState {
    SimulationState::new(Config {
        small_block_size: 40,
        large_block_size: 100,
        wall_x: 0,
        initial_small_position: small.0,
        initial_large_position: large.0,
        initial_small_velocity: small.1,
        initial_large_velocity: large.1,
        mass_exponent: k,
    })
    .unwrap()
}

fn energy(s: &SimulationState) -> i128 {
    let v_small = s.small_block().velocity as i128;
    let v_large = s.large_block().velocity as i128;
    s.small_block().mass as i128 * v_small * v_small
        + s.large_block().mass as i128 * v_large * v_large
}

#[test]
fn narrow_keeps_what_fits() {
    assert_eq!(narrow(0), Some(0));
    assert_eq!(narrow(-5), Some(-5));
    assert_eq!(narrow(i64::MAX as i128), Some(i64::MAX));
    assert_eq!(narrow(i64::MIN as i128), Some(i64::MIN));
    assert_eq!(narrow(i64::MAX as i128 + 1), None);
    assert_eq!(narrow(i64::MIN as i128 - 1), None);
    assert_eq!(narrow(i128::MAX), None);
    assert_eq!(narrow(i128::MIN), None);
}

#[test]
fn contact_needs_touching_or_overlapping_edges() {
    // Edges 30 apart.
    let s = state(0, (30, 0), (130, 0));
    assert!(!s.blocks_in_contact());
    // Large block moved until the edges are one apart, touch, overlap.
    assert!(!state(0, (30, 0), (130, -29)).advance(1).unwrap().blocks_in_contact());
    assert!(state(0, (30, 0), (130, -30)).advance(1).unwrap().blocks_in_contact());
    assert!(state(0, (30, 0), (130, -31)).advance(1).unwrap().blocks_in_contact());
}

#[test]
fn contact_does_not_look_at_velocities() {
    // The blocks overlap and are already parting: still in contact.
    let s = state(0, (30, 0), (130, -40)).advance(1).unwrap();
    let parted = s.collide().unwrap();
    assert_eq!(parted.small_block().velocity, -40);
    assert_eq!(parted.large_block().velocity, 0);
    assert!(parted.blocks_in_contact());
}

#[test]
fn wall_contact_needs_touching_or_entering() {
    assert!(!state(0, (30, -9), (130, 0)).advance(1).unwrap().wall_contact());
    assert!(state(0, (30, -10), (130, 0)).advance(1).unwrap().wall_contact());
    assert!(state(0, (30, -11), (130, 0)).advance(1).unwrap().wall_contact());
}

#[test]
fn equal_masses_swap_velocities() {
    let s = state(0, (30, 7), (130, -5)).collide().unwrap();
    assert_eq!(s.small_block().velocity, -5);
    assert_eq!(s.large_block().velocity, 7);
    assert_eq!(s.collision_count(), 1);
}

#[test]
fn elastic_formula_with_mass_one_hundred() {
    // small: (-99 * 3 + 200 * -60) / 101 = -12297 / 101, large: (99 * -60 + 2 * 3) / 101 = -5934 / 101
    let s = state(2, (30, 3), (130, -60)).collide().unwrap();
    assert_eq!(s.small_block().velocity, -121);
    assert_eq!(s.large_block().velocity, -58);
    assert_eq!(s.collision_count(), 1);
}

#[test]
fn elastic_formula_rounds_towards_zero_on_both_sides() {
    let s = state(2, (30, -3), (130, 60)).collide().unwrap();
    assert_eq!(s.small_block().velocity, 121);
    assert_eq!(s.large_block().velocity, 58);
    let s = state(3, (30, 1000), (130, 0)).collide().unwrap();
    assert_eq!(s.small_block().velocity, -998);
    assert_eq!(s.large_block().velocity, 1);
}

#[test]
fn elastic_formula_with_the_largest_mass() {
    let s = state(18, (30, 5), (130, -1)).collide().unwrap();
    assert_eq!(s.small_block().velocity, -6);
    assert_eq!(s.large_block().velocity, 0);
}

#[test]
fn collision_moves_no_block() {
    let before = state(2, (30, 3), (130, -60));
    let after = before.collide().unwrap();
    assert_eq!(after.small_block().position, 30);
    assert_eq!(after.large_block().position, 130);
    assert_eq!(after.wall_x(), 0);
    assert_eq!(after.mass_exponent(), 2);
    assert_eq!(after.large_block().mass, 100);
}

#[test]
fn collision_keeps_energy_within_a_millionth() {
    let before = state(4, (30, 123_456_789_012), (130, -987_654_321_098));
    let after = before.collide().unwrap();
    assert_eq!(after.small_block().velocity, -2_098_543_231_205);
    assert_eq!(after.large_block().velocity, -987_432_121_095);
    let e0 = energy(&before);
    let e1 = energy(&after);
    assert_eq!(e0, 9_754_625_821_414_266_032_739_976_144);
    assert_eq!(e0 - e1, 19_322_270_663_974_119);
    assert!(((e0 - e1) as f64) / (e0 as f64) < 1e-6);
}

#[test]
fn collision_never_adds_energy() {
    for k in [0, 1, 2, 5, 9, 18] {
        for v_small in [-1_000_003i64, -17, 0, 1, 999_983] {
            for v_large in [-65_537i64, -1, 0, 3, 40_009] {
                let before = state(k, (30, v_small), (130, v_large));
                let after = before.collide().unwrap();
                let lost = energy(&before) - energy(&after);
                let w_small = after.small_block().velocity as i128;
                let w_large = after.large_block().velocity as i128;
                let m = after.large_block().mass as i128;
                assert!(lost >= 0);
                assert!(lost < 2 * w_small.abs() + 1 + m * (2 * w_large.abs() + 1));
            }
        }
    }
}

#[test]
fn collision_out_of_range_is_refused() {
    // The small block would leave at about three times the largest velocity.
    let s = state(18, (30, -i64::MAX), (130, i64::MAX));
    assert_eq!(s.collide(), None);
    // With equal masses the velocities only change places.
    let s = state(0, (30, i64::MIN), (130, i64::MAX)).collide().unwrap();
    assert_eq!(s.small_block().velocity, i64::MAX);
    assert_eq!(s.large_block().velocity, i64::MIN);
}

#[test]
fn reflection_flips_the_sign_and_keeps_the_magnitude() {
    let s = state(2, (30, -237), (130, -117));
    let r = s.reflect().unwrap();
    assert_eq!(r.small_block().velocity, 237);
    assert_eq!(r.large_block(), s.large_block());
    assert_eq!(r.small_block().position, 30);
    assert_eq!(r.collision_count(), 1);
    let back = r.reflect().unwrap();
    assert_eq!(back.small_block().velocity, -237);
    assert_eq!(back.collision_count(), 2);
    assert_eq!(state(2, (30, 0), (130, 0)).reflect().unwrap().small_block().velocity, 0);
    assert_eq!(
        state(2, (30, i64::MAX), (130, 0)).reflect().unwrap().small_block().velocity,
        -i64::MAX
    );
}

#[test]
fn reflection_of_the_lowest_velocity_is_refused() {
    assert_eq!(state(2, (30, i64::MIN), (130, 0)).reflect(), None);
}

#[test]
fn correction_without_overlap_changes_nothing() {
    let s = state(2, (30, 3), (130, -60));
    assert_eq!(s.correct_penetration(), Some(s));
    // Touching on both sides is no overlap.
    let s = state(2, (30, -10), (130, -40)).advance(1).unwrap();
    assert_eq!(s.small_block().left_edge(), 0);
    assert_eq!(s.small_block().right_edge(), s.large_block().left_edge());
    assert_eq!(s.correct_penetration(), Some(s));
}

#[test]
fn correction_pushes_the_small_block_out_of_the_large_one() {
    let s = state(2, (30, 0), (130, -35)).advance(1).unwrap();
    assert_eq!(s.large_block().left_edge(), 45);
    let c = s.correct_penetration().unwrap();
    assert_eq!(c.small_block().position, 25);
    assert_eq!(c.small_block().right_edge(), 45);
    assert_eq!(c.small_block().velocity, 0);
    assert_eq!(c.large_block(), s.large_block());
    assert_eq!(c.collision_count(), 0);
    assert_eq!(c.correct_penetration(), Some(c));
}

#[test]
fn correction_pushes_the_small_block_out_of_the_wall() {
    let s = state(2, (30, -17), (130, 0)).advance(1).unwrap();
    assert_eq!(s.small_block().left_edge(), -7);
    let c = s.correct_penetration().unwrap();
    assert_eq!(c.small_block().position, 20);
    assert_eq!(c.small_block().left_edge(), 0);
    assert_eq!(c.small_block().velocity, -17);
    assert_eq!(c.correct_penetration(), Some(c));
}

#[test]
fn correction_measures_both_overlaps_before_it_moves() {
    // Small block 10 into the wall and 10 into the large block.
    let s = state(0, (30, -20), (130, -60)).advance(1).unwrap();
    assert_eq!(s.small_block().left_edge(), -10);
    assert_eq!(s.small_block().right_edge(), 30);
    assert_eq!(s.large_block().left_edge(), 20);
    let c = s.correct_penetration().unwrap();
    assert_eq!(c.small_block().position, 10);
    // Small block 10 into the wall and 25 into the large block.
    let s = state(0, (30, -20), (130, -75)).advance(1).unwrap();
    let c = s.correct_penetration().unwrap();
    assert_eq!(c.small_block().position, -5);
}

#[test]
fn correction_out_of_range_is_refused() {
    let s = SimulationState::new(Config {
        small_block_size: 40,
        large_block_size: 100,
        wall_x: i64::MIN,
        initial_small_position: i64::MIN + 30,
        initial_large_position: 0,
        initial_small_velocity: 0,
        initial_large_velocity: i64::MIN,
        mass_exponent: 0,
    })
    .unwrap();
    let moved = s.advance(1).unwrap();
    assert_eq!(moved.large_block().position, i64::MIN);
    assert_eq!(moved.correct_penetration(), None);
    assert_eq!(moved.resolve(), None);
}

#[test]
fn resolve_applies_both_contacts_in_one_pass() {
    let s = state(0, (30, -20), (130, -60)).advance(1).unwrap();
    assert!(s.blocks_in_contact());
    assert!(s.wall_contact());
    let r = s.resolve().unwrap();
    // Velocities change places, then the small block's turns round.
    assert_eq!(r.small_block().velocity, 60);
    assert_eq!(r.large_block().velocity, -20);
    assert_eq!(r.collision_count(), 2);
    assert_eq!(r.small_block().position, 10);
    assert_eq!(r.large_block().position, 70);
}

#[test]
fn resolve_without_contact_changes_nothing() {
    let s = state(3, (30, 4), (130, -9));
    assert_eq!(s.resolve(), Some(s));
}

#[test]
fn resolve_counts_a_touch_without_overlap() {
    let s = state(0, (30, 0), (130, -30)).advance(1).unwrap();
    let r = s.resolve().unwrap();
    assert_eq!(r.collision_count(), 1);
    assert_eq!(r.small_block().position, 30);
    assert_eq!(r.small_block().velocity, -30);
    assert_eq!(r.large_block().velocity, 0);
}
