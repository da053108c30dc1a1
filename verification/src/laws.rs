//! Global properties of the controller, stated and proved once over the
//! specification model that the executable contracts are written in.

use vstd::prelude::*;
use vstd::arithmetic::div_mod::{
    lemma_fundamental_div_mod, lemma_fundamental_div_mod_converse, lemma_mod_add_multiples_vanish,
};
use crate::game_controller::{boxes_overlap, elapsed_ms, frame_index_at, GameController};

verus! {

/// Death ends the round for good: once a collision has cleared the round
/// start, no further collision can occur and every position and frame
/// query reports its round-not-started default, until a new `start`. In
/// particular a repeated state query after death finds no collision and
/// leaves the controller unchanged.
pub proof fn lemma_death_resets_round(c: GameController, now: int)
    ensures
        !c.spec_clear_round().spec_collides(now),
        c.spec_clear_round().spec_enemy_x(now) == c.canvas_width as int,
        frame_index_at(
            c.spec_clear_round().game_start_time,
            c.player_frame_duration,
            c.player_frames,
            now,
        ) == 0,
        frame_index_at(
            c.spec_clear_round().game_start_time,
            c.enemy_frame_duration,
            c.enemy_frames,
            now,
        ) == 0,
{
}

/// Debounce: an accepted jump press records its time; a second press
/// within `jump_duration` of it leaves the controller unchanged; a press
/// once `jump_duration` has elapsed starts a new arc at the new press
/// time.
pub proof fn lemma_jump_debounce(c: GameController, t0: u64, t1: u64, t2: u64)
    requires
        c.jump_start_time is None
            || elapsed_ms(c.jump_start_time->0, t0 as int) >= c.jump_duration,
        elapsed_ms(t0, t1 as int) < c.jump_duration,
        elapsed_ms(t0, t2 as int) >= c.jump_duration,
    ensures
        c.spec_jump(t0).jump_start_time == Some(t0),
        c.spec_jump(t0).spec_jump(t1) == c.spec_jump(t0),
        c.spec_jump(t0).spec_jump(t2).jump_start_time == Some(t2),
{
}

/// Jump symmetry: the player rests at its default height at the moment a
/// jump starts and from the moment the arc completes; at the midpoint of
/// an even-length arc it is lifted by the configured fraction
/// (`jump_height_permille` thousandths, rounded down) of the default
/// height.
pub proof fn lemma_jump_symmetry(c: GameController, j: u64, t: int)
    requires
        c.wf(),
        c.jump_start_time == Some(j),
        c.jump_duration > 0,
    ensures
        c.spec_player_y(j as int) == c.spec_default_player_y(),
        t >= j + c.jump_duration ==> c.spec_player_y(t) == c.spec_default_player_y(),
        c.jump_duration % 2 == 0 ==> c.spec_player_y(j + c.jump_duration as int / 2)
            == c.spec_default_player_y()
                - (c.jump_height_permille * c.spec_default_player_y()) / 1000,
{
    let h = c.jump_height_permille as int;
    let dy = c.spec_default_player_y();
    let d = c.jump_duration as int;
    let den = 1000 * (d * d);
    assert(d * d > 0) by (nonlinear_arith)
        requires
            d > 0,
    ;

    // At the start of the arc no time has elapsed, so the parabola term is 0.
    assert(elapsed_ms(j, j as int) == 0);
    assert(h * dy * 4 * 0 * (d - 0) == 0) by (nonlinear_arith);
    lemma_fundamental_div_mod_converse(0, den, 0, 0);
    assert(c.spec_player_y(j as int) == dy);

    // At the midpoint of an even-length arc the parabola term is the full
    // configured fraction of the default height.
    if c.jump_duration % 2 == 0 {
        let m = d / 2;
        assert(d == 2 * m);
        let now = j + m;
        let e = elapsed_ms(j, now);
        assert(e == m);
        assert(0 <= m < d);
        let num = h * dy * 4 * e * (d - e);
        assert(num == (h * dy) * (d * d)) by (nonlinear_arith)
            requires
                num == h * dy * 4 * e * (d - e),
                e == m,
                d == 2 * m,
        ;
        let q = (h * dy) / 1000;
        let r = (h * dy) % 1000;
        lemma_fundamental_div_mod(h * dy, 1000);
        assert(num == q * (1000 * (d * d)) + r * (d * d)) by (nonlinear_arith)
            requires
                num == (h * dy) * (d * d),
                h * dy == 1000 * q + r,
        ;
        assert(0 <= r * (d * d) && r * (d * d) < 1000 * (d * d)) by (nonlinear_arith)
            requires
                0 <= r < 1000,
                d * d > 0,
        ;
        lemma_fundamental_div_mod_converse(num, den, q, r * (d * d));
        assert(num / den == q);
        assert(c.spec_player_y(now) == dy - q);
    }
}

/// Sawtooth periodicity: during a round, the enemy position repeats
/// exactly every route duration.
pub proof fn lemma_enemy_sweep_periodic(c: GameController, now: int)
    requires
        c.game_start_time is Some,
        now >= c.game_start_time->0,
        c.enemy_route_duration > 0,
    ensures
        c.spec_enemy_x(now + c.enemy_route_duration) == c.spec_enemy_x(now),
{
    let s = c.game_start_time->0;
    let d = c.enemy_route_duration as int;
    let e = elapsed_ms(s, now);
    assert(elapsed_ms(s, now + d) == e + d);
    lemma_mod_add_multiples_vanish(e, d);
    assert((e + d) % d == e % d);
}

/// Boxes that merely share an edge do not collide.
pub proof fn lemma_touching_boxes_no_overlap(
    ax1: int, ax2: int, ay1: int, ay2: int,
    bx1: int, bx2: int, by1: int, by2: int,
)
    requires
        ax2 == bx1 || bx2 == ax1 || ay2 == by1 || by2 == ay1,
    ensures
        !boxes_overlap(ax1, ax2, ay1, ay2, bx1, bx2, by1, by2),
{
}

/// A point lies inside a box, where the box includes its left and top
/// edges and excludes its right and bottom edges.
pub open spec fn point_in_box(px: int, py: int, x1: int, x2: int, y1: int, y2: int) -> bool {
    x1 <= px < x2 && y1 <= py < y2
}

/// Nonempty boxes overlap exactly when some point lies inside both:
/// overlapping by any positive amount registers a collision, and anything
/// less does not.
pub proof fn lemma_overlap_iff_common_point(
    ax1: int, ax2: int, ay1: int, ay2: int,
    bx1: int, bx2: int, by1: int, by2: int,
)
    requires
        ax1 < ax2,
        ay1 < ay2,
        bx1 < bx2,
        by1 < by2,
    ensures
        boxes_overlap(ax1, ax2, ay1, ay2, bx1, bx2, by1, by2) <==> (exists|px: int, py: int|
            #[trigger] point_in_box(px, py, ax1, ax2, ay1, ay2)
                && point_in_box(px, py, bx1, bx2, by1, by2)),
{
    if boxes_overlap(ax1, ax2, ay1, ay2, bx1, bx2, by1, by2) {
        let px = if ax1 >= bx1 { ax1 } else { bx1 };
        let py = if ay1 >= by1 { ay1 } else { by1 };
        assert(point_in_box(px, py, ax1, ax2, ay1, ay2)
            && point_in_box(px, py, bx1, bx2, by1, by2));
    }
}

} // verus!
