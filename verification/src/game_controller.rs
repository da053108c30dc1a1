//! The time-sampled game controller.
//!
//! The controller holds immutable-after-load configuration (canvas and
//! sprite dimensions, frame counts and durations, jump and route timing)
//! and exactly two pieces of transient state: the round start timestamp
//! and the jump start timestamp, both in milliseconds. Every query takes
//! the current time as an explicit argument and is a pure function of
//! "now minus a stored start time" plus the configuration.
//!
//! Lengths are integer pixels and fractions of a pixel are dropped
//! (rounded toward negative infinity); the jump height factor is stated
//! in thousandths of the vertical travel.

use vstd::prelude::*;
use vstd::arithmetic::div_mod::lemma_mod_bound;
use crate::math::{floor_div_i128, lemma_div_scaled_bound};
use crate::player_state::PlayerState;

verus! {

/// Upper bound on every configured duration, in milliseconds (about 63
/// years). It keeps the position arithmetic inside `i128`.
pub const MAX_DURATION_MS: u64 = 0x200_0000_0000;

/// Milliseconds elapsed from `start` to `now`; a `now` before `start` is
/// treated as the start instant itself.
pub open spec fn elapsed_ms(start: u64, now: int) -> int {
    if now >= start {
        now - start
    } else {
        0
    }
}

/// Wrapping flipbook index: frames advance one per `frame_ms` of elapsed
/// time since the round started and wrap at `frames`. Before the round
/// starts, and under a zero frame count or zero frame duration (a
/// degenerate configuration), the index is 0.
pub open spec fn frame_index_at(start: Option<u64>, frame_ms: u64, frames: usize, now: int) -> int {
    if start is Some && frames > 0 && frame_ms > 0 {
        (elapsed_ms(start->0, now) / frame_ms as int) % frames as int
    } else {
        0
    }
}

/// Axis-aligned box overlap with strict inequalities on opposite edges:
/// boxes that merely touch along an edge do not overlap.
pub open spec fn boxes_overlap(
    ax1: int, ax2: int, ay1: int, ay2: int,
    bx1: int, bx2: int, by1: int, by2: int,
) -> bool {
    ax1 < bx2 && ax2 > bx1 && ay1 < by2 && ay2 > by1
}

pub struct GameController {
    pub canvas_width: i32,
    pub canvas_height: i32,
    pub player_sprite_width: i32,
    pub player_sprite_height: i32,
    pub enemy_sprite_width: i32,
    pub enemy_sprite_height: i32,
    /// Milliseconds per player animation frame.
    pub player_frame_duration: u64,
    /// Timestamp of the current round's start; present while a round is
    /// active, cleared when a collision is detected.
    pub game_start_time: Option<u64>,
    pub player_frames: usize,
    /// Peak jump height as a fraction of the vertical travel, in
    /// thousandths (0 ..= 1000).
    pub jump_height_permille: u32,
    /// Length of a jump arc in milliseconds; also the debounce window.
    pub jump_duration: u64,
    /// Timestamp of the last accepted jump press; kept after the arc
    /// completes, until overwritten by the next accepted press.
    pub jump_start_time: Option<u64>,
    /// Milliseconds per enemy animation frame.
    pub enemy_frame_duration: u64,
    pub enemy_frames: usize,
    /// Length of one enemy sweep across the canvas, in milliseconds.
    pub enemy_route_duration: u64,
}

impl GameController {
    /// Configuration invariant: timing values small enough that the
    /// position arithmetic stays in `i128`, and the jump height factor a
    /// genuine fraction. Established by `new` and preserved by every
    /// operation.
    pub open spec fn wf(self) -> bool {
        &&& self.player_frame_duration <= MAX_DURATION_MS
        &&& self.enemy_frame_duration <= MAX_DURATION_MS
        &&& self.jump_duration <= MAX_DURATION_MS
        &&& self.enemy_route_duration <= MAX_DURATION_MS
        &&& self.jump_height_permille <= 1000
    }

    /// The freshly constructed controller: zero dimensions and frame
    /// counts, no round and no jump, 50 ms animation frames, a 3000 ms
    /// jump reaching half the vertical travel, a 5000 ms enemy route.
    pub open spec fn initial() -> Self {
        GameController {
            canvas_width: 0,
            canvas_height: 0,
            player_sprite_width: 0,
            player_sprite_height: 0,
            enemy_sprite_width: 0,
            enemy_sprite_height: 0,
            player_frame_duration: 50,
            game_start_time: None,
            player_frames: 0,
            jump_height_permille: 500,
            jump_duration: 3000,
            jump_start_time: None,
            enemy_frame_duration: 50,
            enemy_frames: 0,
            enemy_route_duration: 5000,
        }
    }

    /// Player horizontal position: the sprite is centered on the canvas
    /// and never moves horizontally.
    pub open spec fn spec_player_x(self) -> int {
        (self.canvas_width - self.player_sprite_width) / 2
    }

    /// The resting vertical position: the sprite centered on the canvas.
    pub open spec fn spec_default_player_y(self) -> int {
        (self.canvas_height - self.player_sprite_height) / 2
    }

    /// Player vertical position at `now`: the resting position, except
    /// during an active jump arc, where a parabola lifts the player by
    /// `jump_height_permille` thousandths of the resting height at the
    /// midpoint of the arc and returns it smoothly. Once `jump_duration`
    /// has elapsed (in particular under a zero jump duration) the player
    /// rests again.
    pub open spec fn spec_player_y(self, now: int) -> int {
        let dy = self.spec_default_player_y();
        if self.jump_start_time is Some {
            let e = elapsed_ms(self.jump_start_time->0, now);
            let d = self.jump_duration as int;
            if e >= d {
                dy
            } else {
                dy - (self.jump_height_permille * dy * 4 * e * (d - e)) / (1000 * (d * d))
            }
        } else {
            dy
        }
    }

    /// Enemy horizontal position at `now`. Before the round starts the
    /// enemy is parked at the right edge of the canvas. During a round it
    /// sweeps linearly from the right edge to just past the left edge
    /// over one route duration, then wraps and repeats (a sawtooth). A
    /// zero route duration is treated as an instantaneous sweep resting
    /// at the terminal position.
    pub open spec fn spec_enemy_x(self, now: int) -> int {
        if self.game_start_time is Some {
            let d = self.enemy_route_duration as int;
            if d == 0 {
                -(self.enemy_sprite_width as int)
            } else {
                let em = elapsed_ms(self.game_start_time->0, now) % d;
                self.canvas_width - ((self.canvas_width + self.enemy_sprite_width) * em) / d
            }
        } else {
            self.canvas_width as int
        }
    }

    /// Enemy vertical position: the sprite centered on the canvas,
    /// constant.
    pub open spec fn spec_enemy_y(self) -> int {
        (self.canvas_height - self.enemy_sprite_height) / 2
    }

    /// Collision at `now`: the player and enemy boxes overlap on both
    /// axes, with strict inequalities (touching edges do not collide).
    /// There is no collision while no round is active.
    pub open spec fn spec_collides(self, now: int) -> bool {
        &&& self.game_start_time is Some
        &&& boxes_overlap(
            self.spec_player_x(),
            self.spec_player_x() + self.player_sprite_width,
            self.spec_player_y(now),
            self.spec_player_y(now) + self.player_sprite_height,
            self.spec_enemy_x(now),
            self.spec_enemy_x(now) + self.enemy_sprite_width,
            self.spec_enemy_y(),
            self.spec_enemy_y() + self.enemy_sprite_height,
        )
    }

    /// The state after a jump press at `now`: ignored while a prior jump
    /// arc is still in progress (less than `jump_duration` elapsed since
    /// the recorded press), otherwise the press time is recorded.
    pub open spec fn spec_jump(self, now: u64) -> Self {
        if self.jump_start_time matches Some(j) && elapsed_ms(j, now as int) < self.jump_duration {
            self
        } else {
            GameController { jump_start_time: Some(now), ..self }
        }
    }

    /// The state after `start` at `now`: the round start is recorded,
    /// overwriting any prior round.
    pub open spec fn spec_start(self, now: u64) -> Self {
        GameController { game_start_time: Some(now), ..self }
    }

    /// The state after a detected collision: the round is ended by
    /// clearing its start time; everything else (the jump timestamp
    /// included) is kept.
    pub open spec fn spec_clear_round(self) -> Self {
        GameController { game_start_time: None, ..self }
    }

    pub fn new() -> (c: Self)
        ensures
            c == Self::initial(),
            c.wf(),
    {
        GameController {
            canvas_width: 0,
            canvas_height: 0,
            player_sprite_width: 0,
            player_sprite_height: 0,
            enemy_sprite_width: 0,
            enemy_sprite_height: 0,
            player_frame_duration: 50,
            game_start_time: None,
            player_frames: 0,
            jump_height_permille: 500,
            jump_duration: 3000,
            jump_start_time: None,
            enemy_frame_duration: 50,
            enemy_frames: 0,
            enemy_route_duration: 5000,
        }
    }

    /// Reports `Dead` and ends the round exactly when the player and
    /// enemy boxes overlap at `now`; otherwise reports `Live` and leaves
    /// the state untouched. This is the only query with a side effect.
    pub fn player_state(&mut self, now_ms: u64) -> (s: PlayerState)
        requires
            old(self).wf(),
        ensures
            final(self).wf(),
            old(self).spec_collides(now_ms as int) ==> s == PlayerState::Dead
                && *final(self) == (old(self).spec_clear_round()),
            !old(self).spec_collides(now_ms as int) ==> s == PlayerState::Live
                && *final(self) == *old(self),
    {
        if self.detect_collision(now_ms) {
            self.game_start_time = None;
            PlayerState::Dead
        } else {
            PlayerState::Live
        }
    }

    fn detect_collision(&self, now_ms: u64) -> (c: bool)
        requires
            self.wf(),
        ensures
            c == self.spec_collides(now_ms as int),
    {
        if self.game_start_time.is_none() {
            return false;
        }

        let player_x1: i64 = self.player_x();
        let player_x2: i64 = player_x1 + self.player_sprite_width as i64;
        let player_y1: i64 = self.player_y(now_ms);
        let player_y2: i64 = player_y1 + self.player_sprite_height as i64;

        let enemy_x1: i64 = self.enemy_x(now_ms);
        let enemy_x2: i64 = enemy_x1 + self.enemy_sprite_width as i64;
        let enemy_y1: i64 = self.enemy_y();
        let enemy_y2: i64 = enemy_y1 + self.enemy_sprite_height as i64;

        let x_collision = player_x1 < enemy_x2 && player_x2 > enemy_x1;
        let y_collision = player_y1 < enemy_y2 && player_y2 > enemy_y1;

        x_collision && y_collision
    }

    /// Records a jump press at `now`, unless a jump arc is already in
    /// progress — in that case the press is ignored (debounce over the
    /// full jump duration).
    pub fn jump(&mut self, now_ms: u64)
        ensures
            *final(self) == (old(self).spec_jump(now_ms)),
    {
        if let Some(j) = self.jump_start_time {
            let e: u64 = elapsed_since(j, now_ms);
            if e < self.jump_duration {
                return;
            }
        }
        self.jump_start_time = Some(now_ms);
    }

    /// Records the round start at `now`, resetting every time-derived
    /// position and frame to its start-of-round value.
    pub fn start(&mut self, now_ms: u64)
        ensures
            *final(self) == (old(self).spec_start(now_ms)),
    {
        self.game_start_time = Some(now_ms);
    }

    pub fn set_canvas_dimensions(&mut self, width: i32, height: i32)
        ensures
            *final(self) == (GameController { canvas_width: width, canvas_height: height, ..*old(self) }),
    {
        self.canvas_width = width;
        self.canvas_height = height;
    }

    pub fn load_player_sprite_table(&mut self, total_frames: usize, sprite_width: i32, sprite_height: i32)
        ensures
            *final(self) == (GameController {
                player_frames: total_frames,
                player_sprite_width: sprite_width,
                player_sprite_height: sprite_height,
                ..*old(self)
            }),
    {
        self.player_frames = total_frames;
        self.set_player_sprite_dimensions(sprite_width, sprite_height);
    }

    pub fn set_player_sprite_dimensions(&mut self, width: i32, height: i32)
        ensures
            *final(self) == (GameController {
                player_sprite_width: width,
                player_sprite_height: height,
                ..*old(self)
            }),
    {
        self.player_sprite_width = width;
        self.player_sprite_height = height;
    }

    pub fn load_enemy_sprite_table(&mut self, total_frames: usize, sprite_width: i32, sprite_height: i32)
        ensures
            *final(self) == (GameController {
                enemy_frames: total_frames,
                enemy_sprite_width: sprite_width,
                enemy_sprite_height: sprite_height,
                ..*old(self)
            }),
    {
        self.enemy_frames = total_frames;
        self.set_enemy_sprite_dimensions(sprite_width, sprite_height);
    }

    pub fn set_enemy_sprite_dimensions(&mut self, width: i32, height: i32)
        ensures
            *final(self) == (GameController {
                enemy_sprite_width: width,
                enemy_sprite_height: height,
                ..*old(self)
            }),
    {
        self.enemy_sprite_width = width;
        self.enemy_sprite_height = height;
    }

    /// Sets the animation, jump and route timings (milliseconds each).
    pub fn set_timings(&mut self, player_frame_ms: u64, enemy_frame_ms: u64, jump_ms: u64, route_ms: u64)
        requires
            player_frame_ms <= MAX_DURATION_MS,
            enemy_frame_ms <= MAX_DURATION_MS,
            jump_ms <= MAX_DURATION_MS,
            route_ms <= MAX_DURATION_MS,
        ensures
            *final(self) == (GameController {
                player_frame_duration: player_frame_ms,
                enemy_frame_duration: enemy_frame_ms,
                jump_duration: jump_ms,
                enemy_route_duration: route_ms,
                ..*old(self)
            }),
    {
        self.player_frame_duration = player_frame_ms;
        self.enemy_frame_duration = enemy_frame_ms;
        self.jump_duration = jump_ms;
        self.enemy_route_duration = route_ms;
    }

    /// Sets the peak jump height, in thousandths of the vertical travel.
    pub fn set_jump_height(&mut self, permille: u32)
        requires
            permille <= 1000,
        ensures
            *final(self) == (GameController { jump_height_permille: permille, ..*old(self) }),
    {
        self.jump_height_permille = permille;
    }

    pub fn get_player_frame(&self, now_ms: u64) -> (f: usize)
        ensures
            f == frame_index_at(
                self.game_start_time,
                self.player_frame_duration,
                self.player_frames,
                now_ms as int,
            ),
            self.player_frames > 0 ==> f < self.player_frames,
    {
        match self.game_start_time {
            None => 0,
            Some(s) => {
                if self.player_frames == 0 || self.player_frame_duration == 0 {
                    0
                } else {
                    let e: u64 = elapsed_since(s, now_ms);
                    ((e / self.player_frame_duration) % (self.player_frames as u64)) as usize
                }
            },
        }
    }

    pub fn get_enemy_frame(&self, now_ms: u64) -> (f: usize)
        ensures
            f == frame_index_at(
                self.game_start_time,
                self.enemy_frame_duration,
                self.enemy_frames,
                now_ms as int,
            ),
            self.enemy_frames > 0 ==> f < self.enemy_frames,
    {
        match self.game_start_time {
            None => 0,
            Some(s) => {
                if self.enemy_frames == 0 || self.enemy_frame_duration == 0 {
                    0
                } else {
                    let e: u64 = elapsed_since(s, now_ms);
                    ((e / self.enemy_frame_duration) % (self.enemy_frames as u64)) as usize
                }
            },
        }
    }

    pub fn player_x(&self) -> (x: i64)
        ensures
            x == self.spec_player_x(),
            -0x8000_0000 <= x <= 0x8000_0000,
    {
        center_top_left(self.canvas_width, self.player_sprite_width)
    }

    pub fn enemy_y(&self) -> (y: i64)
        ensures
            y == self.spec_enemy_y(),
            -0x8000_0000 <= y <= 0x8000_0000,
    {
        center_top_left(self.canvas_height, self.enemy_sprite_height)
    }

    pub fn player_y(&self, now_ms: u64) -> (y: i64)
        requires
            self.wf(),
        ensures
            y == self.spec_player_y(now_ms as int),
            -0x2_0000_0000 <= y <= 0x2_0000_0000,
    {
        let dy: i64 = center_top_left(self.canvas_height, self.player_sprite_height);
        match self.jump_start_time {
            None => dy,
            Some(j) => {
                let e: u64 = elapsed_since(j, now_ms);
                let d: u64 = self.jump_duration;
                if e >= d {
                    dy
                } else {
                    let h128: i128 = self.jump_height_permille as i128;
                    let dy128: i128 = dy as i128;
                    let e128: i128 = e as i128;
                    let rem128: i128 = (d - e) as i128;
                    proof {
                        let h = self.jump_height_permille as int;
                        let dyi = dy as int;
                        let ei = e as int;
                        let ri = (d - e) as int;
                        let di = d as int;
                        assert(-0x1F4_0000_0000 <= h * dyi <= 0x1F4_0000_0000) by (nonlinear_arith)
                            requires
                                0 <= h <= 1000,
                                -0x8000_0000 <= dyi <= 0x8000_0000,
                        ;
                        assert({
                            let prod = h * dyi * 4 * ei;
                            -(0x7D0_0000_0000 * 0x200_0000_0000) <= prod <= 0x7D0_0000_0000 * 0x200_0000_0000
                        }) by (nonlinear_arith)
                            requires
                                -0x1F4_0000_0000 <= h * dyi <= 0x1F4_0000_0000,
                                0 <= ei <= 0x200_0000_0000,
                        ;
                        assert({
                            let prod = h * dyi * 4 * ei * ri;
                            -(0x7D0_0000_0000 * 0x200_0000_0000 * 0x200_0000_0000) <= prod
                                <= 0x7D0_0000_0000 * 0x200_0000_0000 * 0x200_0000_0000
                        }) by (nonlinear_arith)
                            requires
                                -(0x7D0_0000_0000 * 0x200_0000_0000) <= h * dyi * 4 * ei
                                    <= 0x7D0_0000_0000 * 0x200_0000_0000,
                                0 <= ri <= 0x200_0000_0000,
                        ;
                        assert(0 < di * di <= 0x200_0000_0000 * 0x200_0000_0000) by (nonlinear_arith)
                            requires
                                0 < di <= 0x200_0000_0000,
                        ;
                    }
                    let num: i128 = h128 * dy128 * 4 * e128 * rem128;
                    let dd: i128 = (d as i128) * (d as i128);
                    let den: i128 = 1000 * dd;
                    proof {
                        let h = self.jump_height_permille as int;
                        let dyi = dy as int;
                        let ei = e as int;
                        let ri = (d - e) as int;
                        let di = d as int;
                        assert(0 <= 4 * ei * ri && 4 * ei * ri <= di * di) by (nonlinear_arith)
                            requires
                                ei >= 0,
                                ri >= 0,
                                ei + ri == di,
                        ;
                        assert(num == (h * dyi) * (4 * ei * ri)) by (nonlinear_arith)
                            requires
                                num == h * dyi * 4 * ei * ri,
                        ;
                        assert({
                            let k: int = 0x8000_0000;
                            -(k * (1000 * (di * di))) <= num <= k * (1000 * (di * di))
                        }) by (nonlinear_arith)
                            requires
                                num == (h * dyi) * (4 * ei * ri),
                                -0x1F4_0000_0000 <= h * dyi <= 0x1F4_0000_0000,
                                0 <= 4 * ei * ri <= di * di,
                                di > 0,
                        ;
                        lemma_div_scaled_bound(num as int, den as int, 0x8000_0000);
                    }
                    let off: i128 = floor_div_i128(num, den);
                    (dy128 - off) as i64
                }
            },
        }
    }

    pub fn enemy_x(&self, now_ms: u64) -> (x: i64)
        requires
            self.wf(),
        ensures
            x == self.spec_enemy_x(now_ms as int),
            -0x2_0000_0000 <= x <= 0x2_0000_0000,
    {
        match self.game_start_time {
            None => self.canvas_width as i64,
            Some(s) => {
                let d: u64 = self.enemy_route_duration;
                if d == 0 {
                    -(self.enemy_sprite_width as i64)
                } else {
                    let e: u64 = elapsed_since(s, now_ms);
                    let em: u64 = e % d;
                    let span: i128 = self.canvas_width as i128 + self.enemy_sprite_width as i128;
                    proof {
                        let sp = span as int;
                        let emi = em as int;
                        let di = d as int;
                        lemma_mod_bound(e as int, di);
                        assert({
                            let k: int = 0x1_0000_0000;
                            -(k * di) <= sp * emi <= k * di
                        }) by (nonlinear_arith)
                            requires
                                -0x1_0000_0000 <= sp <= 0x1_0000_0000,
                                0 <= emi < di,
                        ;
                        lemma_div_scaled_bound(sp * emi, di, 0x1_0000_0000);
                    }
                    let num: i128 = span * (em as i128);
                    let off: i128 = floor_div_i128(num, d as i128);
                    (self.canvas_width as i128 - off) as i64
                }
            },
        }
    }
}

/// Milliseconds elapsed from `start` to `now_ms`, clamped at zero.
pub fn elapsed_since(start: u64, now_ms: u64) -> (e: u64)
    ensures
        e == elapsed_ms(start, now_ms as int),
{
    if now_ms >= start {
        now_ms - start
    } else {
        0
    }
}

/// Top-left coordinate that centers a sprite of length `size` on a canvas
/// of length `total`: half the difference, rounded toward negative
/// infinity.
fn center_top_left(total: i32, size: i32) -> (r: i64)
    ensures
        r == (total - size) as int / 2,
        -0x8000_0000 <= r <= 0x8000_0000,
{
    let t: i128 = total as i128 - size as i128;
    proof {
        lemma_div_scaled_bound(t as int, 2, 0x8000_0000);
    }
    let q: i128 = floor_div_i128(t, 2);
    q as i64
}

} // verus!
