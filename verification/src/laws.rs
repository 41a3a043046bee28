//! Theorems about the simulation, stated over its mathematical view.
use crate::mass::{lemma_mass_bounds, mass_of};
use crate::model::SimulationModel;
use crate::numeric::{abs, lemma_trunc_div, trunc_div};
use crate::resolver::{large_velocity_after, small_velocity_after};
use vstd::prelude::*;

verus! {

/// Twice the kinetic energy of two blocks, the first of mass one and the
/// second of mass `m`.
pub open spec fn energy_of(m: int, v_small: int, v_large: int) -> int {
    v_small * v_small + m * (v_large * v_large)
}

impl SimulationModel {
    /// Twice the kinetic energy of the two blocks.
    pub open spec fn energy(self) -> int {
        self.small_block.mass * (self.small_block.velocity * self.small_block.velocity)
            + self.large_block.mass * (self.large_block.velocity * self.large_block.velocity)
    }

    /// The state after one tick for each duration in `durations`, in order.
    pub open spec fn ticks(self, durations: Seq<int>) -> SimulationModel
        decreases durations.len(),
    {
        if durations.len() == 0 {
            self
        } else {
            self.ticks(durations.drop_last()).tick(durations.last())
        }
    }
}

/// Blocks of equal mass exchange their velocities, exactly.
pub proof fn lemma_equal_masses_swap(v_small: int, v_large: int)
    ensures
        small_velocity_after(1, v_small, v_large) == v_large,
        large_velocity_after(1, v_small, v_large) == v_small,
{
    assert((1 - 1) * v_small + 2 * 1 * v_large == 2 * v_large);
    assert((1 - 1) * v_large + 2 * v_small == 2 * v_small);
    assert(trunc_div(2 * v_large, 2) == v_large);
    assert(trunc_div(2 * v_small, 2) == v_small);
}

/// Before rounding, an elastic collision keeps the momentum: the numerators
/// of the two new velocities carry the old momentum times the sum of the
/// masses.
pub proof fn lemma_collision_conserves_momentum_exactly(m: int, v_small: int, v_large: int)
    ensures
        ({
            let n_small: int = (1 - m) * v_small + 2 * m * v_large;
            let n_large: int = (m - 1) * v_large + 2 * v_small;
            n_small + m * n_large == (1 + m) * (v_small + m * v_large)
        }),
{
    let n_large: int = (m - 1) * v_large + 2 * v_small;
    let mb: int = m * v_large;
    assert(m * n_large == m * mb - mb + 2 * (m * v_small)) by (nonlinear_arith)
        requires
            n_large == (m - 1) * v_large + 2 * v_small,
            mb == m * v_large,
    ;
    assert((1 + m) * (v_small + mb) == v_small + mb + m * v_small + m * mb) by (nonlinear_arith);
    assert((1 - m) * v_small == v_small - m * v_small) by (nonlinear_arith);
    assert(2 * m * v_large == 2 * mb) by (nonlinear_arith)
        requires
            mb == m * v_large,
    ;
}

/// Before rounding, an elastic collision keeps the kinetic energy: the
/// numerators of the two new velocities carry the old energy times the
/// square of the sum of the masses.
pub proof fn lemma_collision_conserves_energy_exactly(m: int, v_small: int, v_large: int)
    ensures
        ({
            let n_small: int = (1 - m) * v_small + 2 * m * v_large;
            let n_large: int = (m - 1) * v_large + 2 * v_small;
            energy_of(m, n_small, n_large) == (1 + m) * (1 + m) * energy_of(m, v_small, v_large)
        }),
{
    let n_small: int = (1 - m) * v_small + 2 * m * v_large;
    let n_large: int = (m - 1) * v_large + 2 * v_small;
    let x: int = m - 1;
    let u: int = x * v_small;
    let t: int = m * v_large;
    let y: int = x * v_large;
    let aa: int = v_small * v_small;
    let bb: int = v_large * v_large;
    let ya: int = y * v_small;
    let xx: int = x * x;
    assert(n_small == 2 * t - u && n_large == y + 2 * v_small) by (nonlinear_arith)
        requires
            n_small == (1 - m) * v_small + 2 * m * v_large,
            n_large == (m - 1) * v_large + 2 * v_small,
            x == m - 1,
            u == x * v_small,
            t == m * v_large,
            y == x * v_large,
    ;
    assert(n_small * n_small == 4 * (t * t) - 4 * (u * t) + u * u) by (nonlinear_arith)
        requires
            n_small == 2 * t - u,
    ;
    assert(n_large * n_large == y * y + 4 * ya + 4 * aa) by (nonlinear_arith)
        requires
            n_large == y + 2 * v_small,
            ya == y * v_small,
            aa == v_small * v_small,
    ;
    assert(u * t == m * ya) by (nonlinear_arith)
        requires
            u == x * v_small,
            t == m * v_large,
            ya == (x * v_large) * v_small,
    ;
    assert(t * t == m * (m * bb)) by (nonlinear_arith)
        requires
            t == m * v_large,
            bb == v_large * v_large,
    ;
    assert(u * u == xx * aa) by (nonlinear_arith)
        requires
            u == x * v_small,
            aa == v_small * v_small,
            xx == x * x,
    ;
    assert(y * y == xx * bb) by (nonlinear_arith)
        requires
            y == x * v_large,
            bb == v_large * v_large,
            xx == x * x,
    ;
    assert(xx + 4 * m == (1 + m) * (1 + m)) by (nonlinear_arith)
        requires
            xx == (m - 1) * (m - 1),
    ;
    assert(m * (y * y + 4 * ya + 4 * aa) == m * (xx * bb) + 4 * (m * ya) + 4 * (m * aa))
        by (nonlinear_arith)
        requires
            y * y == xx * bb,
    ;
    assert(4 * (m * (m * bb)) + xx * aa + m * (xx * bb) + 4 * (m * aa) == (xx + 4 * m) * (aa + m
        * bb)) by (nonlinear_arith);
}

/// What rounding a quotient towards zero takes from the square of the
/// numerator.
proof fn lemma_square_loss(n: int, d: int, w: int)
    requires
        d > 0,
        d * abs(w) <= abs(n) < d * abs(w) + d,
    ensures
        0 <= n * n - (d * d) * (w * w) < (d * d) * (2 * abs(w) + 1),
{
    let a: int = abs(n);
    let b: int = abs(w);
    assert(n * n == a * a) by (nonlinear_arith)
        requires
            a == n || a == -n,
    ;
    assert(w * w == b * b) by (nonlinear_arith)
        requires
            b == w || b == -w,
    ;
    assert(0 <= a * a - (d * d) * (b * b) < (d * d) * (2 * b + 1)) by (nonlinear_arith)
        requires
            d > 0,
            b >= 0,
            d * b <= a < d * b + d,
    ;
}

/// An elastic collision never adds kinetic energy, and what it takes away is
/// the rounding of the two new velocities to whole numbers: less than
/// `2 * |v_small'| + 1 + m * (2 * |v_large'| + 1)`.
pub proof fn lemma_collision_energy(m: int, v_small: int, v_large: int)
    requires
        m >= 1,
    ensures
        ({
            let w_small: int = small_velocity_after(m, v_small, v_large);
            let w_large: int = large_velocity_after(m, v_small, v_large);
            let before: int = energy_of(m, v_small, v_large);
            let after: int = energy_of(m, w_small, w_large);
            0 <= before - after < 2 * abs(w_small) + 1 + m * (2 * abs(w_large) + 1)
        }),
{
    let s: int = 1 + m;
    let n_small: int = (1 - m) * v_small + 2 * m * v_large;
    let n_large: int = (m - 1) * v_large + 2 * v_small;
    let w_small: int = small_velocity_after(m, v_small, v_large);
    let w_large: int = large_velocity_after(m, v_small, v_large);
    let before: int = energy_of(m, v_small, v_large);
    let after: int = energy_of(m, w_small, w_large);
    lemma_collision_conserves_energy_exactly(m, v_small, v_large);
    lemma_trunc_div(n_small, s);
    lemma_trunc_div(n_large, s);
    lemma_square_loss(n_small, s, w_small);
    lemma_square_loss(n_large, s, w_large);
    let loss_small: int = n_small * n_small - (s * s) * (w_small * w_small);
    let loss_large: int = n_large * n_large - (s * s) * (w_large * w_large);
    let bound_small: int = 2 * abs(w_small) + 1;
    let bound_large: int = 2 * abs(w_large) + 1;
    assert((s * s) * (before - after) == loss_small + m * loss_large) by (nonlinear_arith)
        requires
            n_small * n_small + m * (n_large * n_large) == (s * s) * before,
            after == w_small * w_small + m * (w_large * w_large),
            loss_small == n_small * n_small - (s * s) * (w_small * w_small),
            loss_large == n_large * n_large - (s * s) * (w_large * w_large),
    ;
    assert(0 <= m * loss_large < m * ((s * s) * bound_large)) by (nonlinear_arith)
        requires
            m >= 1,
            0 <= loss_large < (s * s) * bound_large,
    ;
    assert(m * ((s * s) * bound_large) == (s * s) * (m * bound_large)) by (nonlinear_arith);
    assert((s * s) * bound_small + (s * s) * (m * bound_large) == (s * s) * (bound_small + m
        * bound_large)) by (nonlinear_arith);
    assert(0 <= before - after < bound_small + m * bound_large) by (nonlinear_arith)
        requires
            s > 0,
            0 <= (s * s) * (before - after) < (s * s) * (bound_small + m * bound_large),
    ;
}

/// The weighted sum of two speeds is bounded through the energy they carry:
/// `(a + m * b)^2 <= (1 + m) * (a^2 + m * b^2)`.
proof fn lemma_speed_sum_bound(m: int, a: int, b: int)
    requires
        m >= 0,
    ensures
        (a + m * b) * (a + m * b) <= (1 + m) * (a * a + m * (b * b)),
{
    let mb: int = m * b;
    let aa: int = a * a;
    let bb: int = b * b;
    let ab: int = a * b;
    assert((a + mb) * (a + mb) == aa + 2 * (a * mb) + mb * mb) by (nonlinear_arith)
        requires
            aa == a * a,
    ;
    assert(a * mb == m * ab) by (nonlinear_arith)
        requires
            mb == m * b,
            ab == a * b,
    ;
    assert(mb * mb == m * (m * bb)) by (nonlinear_arith)
        requires
            mb == m * b,
            bb == b * b,
    ;
    assert((1 + m) * (aa + m * bb) == aa + m * bb + m * aa + m * (m * bb)) by (nonlinear_arith);
    assert(aa + bb - 2 * ab >= 0) by (nonlinear_arith)
        requires
            aa == a * a,
            bb == b * b,
            ab == a * b,
    ;
    assert(m * (aa + bb - 2 * ab) >= 0) by (nonlinear_arith)
        requires
            m >= 0,
            aa + bb - 2 * ab >= 0,
    ;
    assert(m * (aa + bb - 2 * ab) == m * aa + m * bb - 2 * (m * ab)) by (nonlinear_arith);
}

/// Relative form of the energy law: where the kinetic energy before the
/// collision is at least `4_000_002_000_000` for each unit of the two
/// masses together, the collision takes no more than a millionth of it.
pub proof fn lemma_collision_energy_relative(m: int, v_small: int, v_large: int)
    requires
        m >= 1,
        energy_of(m, v_small, v_large) >= 4_000_002_000_000 * (1 + m),
    ensures
        ({
            let w_small: int = small_velocity_after(m, v_small, v_large);
            let w_large: int = large_velocity_after(m, v_small, v_large);
            let before: int = energy_of(m, v_small, v_large);
            let after: int = energy_of(m, w_small, w_large);
            0 <= 1_000_000 * (before - after) <= before
        }),
{
    let w_small: int = small_velocity_after(m, v_small, v_large);
    let w_large: int = large_velocity_after(m, v_small, v_large);
    let before: int = energy_of(m, v_small, v_large);
    let after: int = energy_of(m, w_small, w_large);
    let a: int = abs(w_small);
    let b: int = abs(w_large);
    let x: int = a + m * b;
    let s: int = 1 + m;
    let t: int = 1_000_000;
    lemma_collision_energy(m, v_small, v_large);
    assert(2 * a + 1 + m * (2 * b + 1) == 2 * x + 1 + m) by (nonlinear_arith)
        requires
            x == a + m * b,
    ;
    // before - after <= 2 * x + m
    lemma_speed_sum_bound(m, a, b);
    assert(a * a == w_small * w_small) by (nonlinear_arith)
        requires
            a == w_small || a == -w_small,
    ;
    assert(b * b == w_large * w_large) by (nonlinear_arith)
        requires
            b == w_large || b == -w_large,
    ;
    assert(x * x <= s * after);
    assert(s * after <= s * before) by (nonlinear_arith)
        requires
            s > 0,
            after <= before,
    ;
    let d: int = before - t * s;
    let y: int = 2 * t * x;
    assert(y * y == 4_000_000_000_000 * (x * x)) by (nonlinear_arith)
        requires
            y == 2_000_000 * x,
    ;
    assert(d * d >= 4_000_000_000_000 * (s * before)) by (nonlinear_arith)
        requires
            d == before - 1_000_000 * s,
            s > 0,
            before >= 4_000_002_000_000 * s,
    ;
    assert(d >= y) by (nonlinear_arith)
        requires
            d >= 0,
            y >= 0,
            d * d >= y * y,
    ;
}

/// A collision between the blocks of a state never adds kinetic energy, and
/// takes less than the rounding bound of `lemma_collision_energy`: no more
/// than a millionth where the energy is as large as
/// `lemma_collision_energy_relative` asks. It moves no block.
pub proof fn lemma_collide_energy(s: SimulationModel)
    requires
        s.wf(),
    ensures
        s.collide().energy() <= s.energy(),
        s.energy() - s.collide().energy() < 2 * abs(s.collide().small_block.velocity) + 1
            + s.large_block.mass * (2 * abs(s.collide().large_block.velocity) + 1),
        s.energy() >= 4_000_002_000_000 * (1 + s.large_block.mass) ==> 1_000_000 * (s.energy()
            - s.collide().energy()) <= s.energy(),
        s.collide().small_block.position == s.small_block.position,
        s.collide().large_block.position == s.large_block.position,
{
    lemma_mass_bounds(s.mass_exponent);
    lemma_collision_energy(s.large_block.mass, s.small_block.velocity, s.large_block.velocity);
    if s.energy() >= 4_000_002_000_000 * (1 + s.large_block.mass) {
        lemma_collision_energy_relative(
            s.large_block.mass,
            s.small_block.velocity,
            s.large_block.velocity,
        );
    }
    assert(1 * (s.small_block.velocity * s.small_block.velocity) == s.small_block.velocity
        * s.small_block.velocity);
    assert(1 * (s.collide().small_block.velocity * s.collide().small_block.velocity)
        == s.collide().small_block.velocity * s.collide().small_block.velocity);
}

/// At the wall the small block's velocity changes sign and keeps its
/// magnitude. Nothing else changes but the counter, which goes up by one; in
/// particular the kinetic energy stays.
pub proof fn lemma_wall_reflection(s: SimulationModel)
    ensures
        s.reflect().small_block.velocity == -s.small_block.velocity,
        abs(s.reflect().small_block.velocity) == abs(s.small_block.velocity),
        s.reflect().small_block.position == s.small_block.position,
        s.reflect().large_block == s.large_block,
        s.reflect().collision_count == s.collision_count + 1,
        s.reflect().energy() == s.energy(),
{
    let v: int = s.small_block.velocity;
    assert((-v) * (-v) == v * v) by (nonlinear_arith);
}

/// The correction moves the small block and nothing else: velocities, the
/// large block and the counter stay. Where nothing overlaps it changes
/// nothing at all.
pub proof fn lemma_correction_is_positional(s: SimulationModel)
    ensures
        s.correct_penetration().small_block.velocity == s.small_block.velocity,
        s.correct_penetration().large_block == s.large_block,
        s.correct_penetration().collision_count == s.collision_count,
        s.correct_penetration().energy() == s.energy(),
        s.block_overlap() == 0 && s.wall_overlap() == 0 ==> s.correct_penetration() == s,
{
}

/// Where the large block leaves the small one room, one correction is
/// enough: a second one changes nothing.
pub proof fn lemma_correction_idempotent(s: SimulationModel)
    requires
        s.has_room(),
    ensures
        s.correct_penetration().correct_penetration() == s.correct_penetration(),
{
}

/// After a pass of the resolver the small block reaches into neither the
/// large block nor the wall exactly if the large block leaves it room. The
/// resolver does not move the large block, so the room is the same before
/// and after.
pub proof fn lemma_resolve_free_of_penetration(s: SimulationModel)
    ensures
        s.resolve().has_room() == s.has_room(),
        s.resolve().free_of_penetration() == s.has_room(),
{
}

/// What stays the same through any number of substeps: sizes, masses, the
/// wall and the exponent.
pub proof fn lemma_run_keeps_setup(s: SimulationModel, dt: int, count: nat)
    ensures
        s.run(dt, count).same_setup(s),
        s.wf() ==> s.run(dt, count).wf(),
    decreases count,
{
    if count > 0 {
        lemma_run_keeps_setup(s.substep(dt), dt, (count - 1) as nat);
    }
}

/// After one substep or more, the small block reaches into neither the large
/// block nor the wall exactly if the large block leaves it room.
pub proof fn lemma_run_free_of_penetration(s: SimulationModel, dt: int, count: nat)
    requires
        count >= 1,
    ensures
        s.run(dt, count).free_of_penetration() == s.run(dt, count).has_room(),
    decreases count,
{
    if count == 1 {
        assert(s.run(dt, 1) == s.substep(dt).run(dt, 0));
        lemma_resolve_free_of_penetration(s.advance(dt));
    } else {
        lemma_run_free_of_penetration(s.substep(dt), dt, (count - 1) as nat);
    }
}

/// After any tick that was carried out, the small block reaches into
/// neither the large block nor the wall, provided the large block has come
/// to rest no closer to the wall than the small block is wide; and if it
/// has come closer, the small block does reach into one of them.
pub proof fn lemma_tick_free_of_penetration(s: SimulationModel, dt: int)
    requires
        s.wf(),
        s.tick_succeeds(dt),
    ensures
        s.tick(dt).free_of_penetration() == s.tick(dt).has_room(),
{
    lemma_mass_bounds(s.mass_exponent);
    lemma_run_free_of_penetration(s, dt, s.substep_count());
}

/// What the display shows after a tick that was carried out is free of
/// penetration, whether the large block has left the small one room or not:
/// where it has not, the display puts the blocks at rest against the wall.
pub proof fn lemma_display_free_of_penetration(s: SimulationModel, dt: int)
    requires
        s.wf(),
        s.tick_succeeds(dt),
    ensures
        s.tick(dt).as_displayed().free_of_penetration(),
        s.tick(dt).has_room() ==> s.tick(dt).as_displayed() == s.tick(dt),
{
    lemma_tick_free_of_penetration(s, dt);
}

/// One substep counts one collision for each contact that the moved blocks
/// are in: the one between the blocks and the one at the wall.
pub proof fn lemma_substep_counts(s: SimulationModel, dt: int)
    ensures
        s.substep(dt).collision_count == s.collision_count + (if s.advance(
            dt,
        ).blocks_in_contact() {
            1nat
        } else {
            0nat
        }) + (if s.advance(dt).wall_contact() {
            1nat
        } else {
            0nat
        }),
{
}

/// The counter never goes down in any number of substeps.
pub proof fn lemma_run_counter_monotonic(s: SimulationModel, dt: int, count: nat)
    ensures
        s.run(dt, count).collision_count >= s.collision_count,
    decreases count,
{
    if count > 0 {
        lemma_substep_counts(s, dt);
        lemma_run_counter_monotonic(s.substep(dt), dt, (count - 1) as nat);
    }
}

/// The counter never goes down in a tick, carried out or refused.
pub proof fn lemma_tick_counter_monotonic(s: SimulationModel, dt: int)
    ensures
        s.tick(dt).collision_count >= s.collision_count,
{
    lemma_run_counter_monotonic(s, dt, s.substep_count());
}

/// The counter never goes down across any sequence of ticks: after the
/// first `later` of them it is at least what it was after the first
/// `earlier`.
pub proof fn lemma_ticks_counter_monotonic(
    s: SimulationModel,
    durations: Seq<int>,
    earlier: int,
    later: int,
)
    requires
        0 <= earlier <= later <= durations.len(),
    ensures
        s.ticks(durations.take(earlier)).collision_count <= s.ticks(
            durations.take(later),
        ).collision_count,
    decreases later,
{
    if earlier < later {
        lemma_ticks_counter_monotonic(s, durations, earlier, later - 1);
        assert(durations.take(later).drop_last() =~= durations.take(later - 1));
        lemma_tick_counter_monotonic(
            s.ticks(durations.take(later - 1)),
            durations.take(later).last(),
        );
    }
}

/// Substep gating: a tick that is carried out while the large block is
/// farther from the wall than the small block is wide is exactly one
/// substep; once the large block is within that distance, it is exactly
/// `10^mass_exponent` substeps.
pub proof fn lemma_substep_gating(s: SimulationModel, dt: int)
    requires
        s.tick_succeeds(dt),
    ensures
        s.distance_to_wall() > s.small_block.size() ==> s.tick(dt) == s.substep(dt),
        s.distance_to_wall() <= s.small_block.size() ==> s.tick(dt) == s.run(
            dt,
            mass_of(s.mass_exponent) as nat,
        ),
{
    assert(s.run(dt, 1) == s.substep(dt).run(dt, 0));
}

/// One substep never adds kinetic energy.
pub proof fn lemma_substep_energy(s: SimulationModel, dt: int)
    requires
        s.wf(),
    ensures
        s.substep(dt).energy() <= s.energy(),
{
    let moved = s.advance(dt);
    lemma_collide_energy(moved);
    lemma_wall_reflection(moved.after_block_contact());
    lemma_correction_is_positional(moved.after_wall_contact());
}

/// The kinetic energy never goes up in any number of substeps: rounding
/// only ever takes energy away.
pub proof fn lemma_run_energy(s: SimulationModel, dt: int, count: nat)
    requires
        s.wf(),
    ensures
        s.run(dt, count).energy() <= s.energy(),
    decreases count,
{
    if count > 0 {
        lemma_substep_energy(s, dt);
        lemma_run_keeps_setup(s, dt, 1);
        assert(s.run(dt, 1) == s.substep(dt).run(dt, 0));
        lemma_run_energy(s.substep(dt), dt, (count - 1) as nat);
    }
}

/// Neither block is faster than the kinetic energy allows: the square of
/// either velocity is at most the energy.
pub proof fn lemma_speed_bounded_by_energy(s: SimulationModel)
    requires
        s.wf(),
    ensures
        s.small_block.velocity * s.small_block.velocity <= s.energy(),
        s.large_block.velocity * s.large_block.velocity <= s.energy(),
{
    lemma_mass_bounds(s.mass_exponent);
    let m: int = s.large_block.mass;
    let aa: int = s.small_block.velocity * s.small_block.velocity;
    let bb: int = s.large_block.velocity * s.large_block.velocity;
    assert(aa >= 0 && bb >= 0) by (nonlinear_arith)
        requires
            aa == s.small_block.velocity * s.small_block.velocity,
            bb == s.large_block.velocity * s.large_block.velocity,
    ;
    assert(m * bb >= bb) by (nonlinear_arith)
        requires
            m >= 1,
            bb >= 0,
    ;
    assert(1 * aa == aa);
}

/// However long the simulation runs, neither block gets faster than the
/// kinetic energy at the start allows.
pub proof fn lemma_run_speed_bound(s: SimulationModel, dt: int, count: nat)
    requires
        s.wf(),
    ensures
        ({
            let end = s.run(dt, count);
            &&& end.small_block.velocity * end.small_block.velocity <= s.energy()
            &&& end.large_block.velocity * end.large_block.velocity <= s.energy()
        }),
{
    lemma_run_energy(s, dt, count);
    lemma_run_keeps_setup(s, dt, count);
    lemma_speed_bounded_by_energy(s.run(dt, count));
}

/// Once the blocks have parted for good, nothing collides any more: however
/// many substeps follow, the counter and the velocities stay as they are and
/// the blocks stay parted.
pub proof fn lemma_parted_for_good(s: SimulationModel, dt: int, count: nat)
    requires
        dt >= 0,
        s.parted(),
    ensures
        s.run(dt, count).parted(),
        s.run(dt, count).collision_count == s.collision_count,
        s.run(dt, count).small_block.velocity == s.small_block.velocity,
        s.run(dt, count).large_block.velocity == s.large_block.velocity,
    decreases count,
{
    if count > 0 {
        let v_small: int = s.small_block.velocity;
        let v_large: int = s.large_block.velocity;
        assert(0 <= v_small * dt <= v_large * dt) by (nonlinear_arith)
            requires
                0 <= v_small <= v_large,
                dt >= 0,
        ;
        assert(s.substep(dt) == s.advance(dt));
        lemma_parted_for_good(s.substep(dt), dt, (count - 1) as nat);
    }
}

} // verus!
