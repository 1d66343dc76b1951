//! The computer opponent: a per-paddle controller with reaction delay,
//! fatigue, prediction error and smoothed pursuit.
//!
//! Positions are in thousandths of a terminal row, time in milliseconds and
//! fatigue in millionths. Each tick takes its random draws as arguments, each a
//! per-mille value in `0..1000`.
use vstd::prelude::*;
use crate::arith::{floor_div, floor_mod};

verus! {

/// Largest difficulty, in hundredths.
pub const MAX_DIFFICULTY: u32 = 200;

/// Controller state of one computer-driven paddle.
#[derive(Clone, Copy, Debug)]
pub struct ComputerAi {
    /// Delay before reacting to a change of the ball's direction (ms).
    pub reaction_delay: u64,
    /// Horizontal direction of the ball when last seen moving (-1, 0 or 1).
    pub last_ball_direction: i8,
    /// Time left before the controller reacts (ms).
    pub reaction_timer: u64,
    /// Scale of the prediction error (thousandths of a row).
    pub prediction_error: i64,
    /// Largest movement per tick (thousandths of a row).
    pub max_speed: i64,
    /// Current movement per tick (thousandths of a row).
    pub current_speed: i64,
    /// Where the paddle's centre is headed (thousandths of a row).
    pub target_position: i64,
    /// Accumulated fatigue (millionths).
    pub fatigue: u64,
    /// Time of the last tick (ms), if there was one.
    pub last_update: Option<u64>,
}

/// Random draws for one tick, each per mille in `0..1000`.
#[derive(Clone, Copy, Debug)]
pub struct AiDraws {
    pub error: u16,
    pub oops_roll: u16,
    pub oops: u16,
    pub extra_roll: u16,
    pub extra: u16,
    pub jitter: u16,
}

/// What the controller sees of the court in one tick.
#[derive(Clone, Copy, Debug)]
pub struct AiView {
    /// Time of this tick (ms).
    pub now: u64,
    /// Whether both paddles are computer-driven (the screensaver match).
    pub screensaver: bool,
    /// Whether this paddle is the left one.
    pub left_side: bool,
    pub area_width: u16,
    pub area_height: u16,
    pub ball_x: u16,
    pub ball_y: u16,
    pub ball_vx: i8,
    pub ball_vy: i8,
    pub bar_position: u16,
    pub bar_length: u8,
}

impl AiDraws {
    pub open spec fn valid(self) -> bool {
        &&& self.error < 1000
        &&& self.oops_roll < 1000
        &&& self.oops < 1000
        &&& self.extra_roll < 1000
        &&& self.extra < 1000
        &&& self.jitter < 1000
    }
}

impl AiView {
    pub open spec fn valid(self) -> bool {
        self.ball_vx != i8::MIN && self.ball_vy != i8::MIN
    }
}

// ----- per-mode tuning -----

/// Fatigue gained per millisecond (millionths); a screensaver match tires
/// its controllers much more slowly.
pub open spec fn fatigue_rate(screensaver: bool) -> int {
    if screensaver {
        1
    } else {
        9
    }
}

/// Ceiling of fatigue (millionths).
pub open spec fn fatigue_cap(screensaver: bool) -> int {
    if screensaver {
        50_000
    } else {
        300_000
    }
}

/// Scale of the prediction error, given the controller's own scale.
pub open spec fn error_magnitude(screensaver: bool, prediction_error: int, fatigue: int) -> int {
    if screensaver {
        prediction_error * 3 / 10
    } else {
        prediction_error * (1_000_000 + fatigue) / 1_000_000
    }
}

/// Chance of a large misjudgement, per mille.
pub open spec fn oops_chance(screensaver: bool, fatigue: int) -> int {
    if screensaver {
        10
    } else {
        50 + fatigue / 10_000
    }
}

/// Chance of a small extra error, per mille.
pub open spec fn extra_chance(screensaver: bool) -> int {
    if screensaver {
        20
    } else {
        100
    }
}

/// Movement jitter (thousandths of a row); only a screensaver match has it.
pub open spec fn jitter_of(screensaver: bool, draw: int, fatigue: int) -> int {
    if screensaver {
        (draw - 500) * 2 * (1_000_000 + fatigue) / 100_000_000
    } else {
        0
    }
}

// ----- the steps of one tick -----

pub open spec fn clamp(x: int, lo: int, hi: int) -> int {
    if x < lo {
        lo
    } else if x > hi {
        hi
    } else {
        x
    }
}

/// Time since the previous tick (ms); none before the first.
pub open spec fn elapsed(last_update: Option<u64>, now: u64) -> int {
    match last_update {
        None => 0,
        Some(t) => if now >= t {
            now - t
        } else {
            0
        },
    }
}

pub open spec fn next_fatigue(fatigue: int, dt: int, screensaver: bool) -> int {
    vstd::math::min(fatigue + dt * fatigue_rate(screensaver), fatigue_cap(screensaver))
}

pub open spec fn direction_of(vx: i8) -> i8 {
    if vx > 0 {
        1
    } else if vx < 0 {
        -1i8
    } else {
        0
    }
}

/// Whether the ball moves towards the paddle.
pub open spec fn ball_coming(v: AiView) -> bool {
    if v.left_side {
        v.ball_vx < 0
    } else {
        v.ball_vx > 0
    }
}

/// The paddle's centre (thousandths of a row).
pub open spec fn paddle_center(v: AiView) -> int {
    v.bar_position * 1000 + v.bar_length * 500
}

/// Rows inside the court's frame, between the walls that the ball bounces
/// off.
pub open spec fn inner_rows(v: AiView) -> int {
    if v.area_height >= 2 {
        v.area_height - 2
    } else {
        0
    }
}

/// Columns inside the court's frame, less the paddle gutter.
pub open spec fn inner_cols(v: AiView) -> int {
    if v.area_width >= 3 {
        v.area_width - 3
    } else {
        0
    }
}

/// The column at which the ball meets the paddle's face: the paddle width
/// on the left, and on the right the column at which the right paddle
/// returns the ball.
pub open spec fn paddle_column(v: AiView) -> int {
    if v.left_side {
        3
    } else if inner_cols(v) >= 4 {
        inner_cols(v) - 4
    } else {
        0
    }
}

/// A drift of a tenth of the way from the paddle's centre to the centre of
/// the inner rows.
pub open spec fn drift_target(v: AiView) -> int {
    let c = paddle_center(v);
    c + (inner_rows(v) * 500 - c) / 10
}

/// The highest top row of the paddle within the inner rows.
pub open spec fn top_travel(v: AiView) -> int {
    if inner_rows(v) >= v.bar_length {
        inner_rows(v) - v.bar_length
    } else {
        0
    }
}

/// The ball's row where it reaches the paddle's column, on its straight line.
pub open spec fn projected_row(v: AiView) -> int {
    let s = direction_of(v.ball_vx) as int;
    v.ball_y * 1000 + (v.ball_vy * (paddle_column(v) - v.ball_x) * 1000 * s) / (v.ball_vx * s)
}

/// A projected row folded into `0..=h` as by reflections off both walls.
pub open spec fn fold_into(p: int, h: int) -> int {
    if h <= 0 {
        0
    } else if p % (2 * h) > h {
        2 * h - p % (2 * h)
    } else {
        p % (2 * h)
    }
}

/// Where the paddle's centre heads when it tracks the ball.
pub open spec fn predicted_target(ai: ComputerAi, v: AiView, d: AiDraws, fatigue: int) -> int {
    let ss = v.screensaver;
    let p1 = fold_into(projected_row(v), inner_rows(v) * 1000);
    let p2 = p1 + (d.error - 500) * error_magnitude(ss, ai.prediction_error as int, fatigue) / 1000;
    let p3 = if d.oops_roll < oops_chance(ss, fatigue) {
        p2 + (d.oops - 500) * 3
    } else {
        p2
    };
    let p4 = if d.extra_roll < extra_chance(ss) {
        p3 + (d.extra - 500)
    } else {
        p3
    };
    clamp(p4, 0, top_travel(v) * 1000)
}

pub open spec fn next_speed(speed: int, distance: int, max_speed: int, dt: int) -> int {
    let far = distance > 500 || distance < -500;
    let desired = vstd::math::min(if distance >= 0 { distance } else { -distance }, max_speed);
    if far {
        vstd::math::min(speed + 2 * dt, desired)
    } else {
        vstd::math::max(speed - 4 * dt, 0)
    }
}

/// Lowest and highest centre of the paddle, with the paddle inside the
/// inner rows.
pub open spec fn lowest_center(v: AiView) -> int {
    v.bar_length * 500
}

pub open spec fn highest_center(v: AiView) -> int {
    (inner_rows(v) - v.bar_length) * 1000 + v.bar_length * 500
}

impl ComputerAi {
    /// Controller tuned for `difficulty` (hundredths, `0..=MAX_DIFFICULTY`).
    pub open spec fn spec_new(difficulty: int) -> ComputerAi {
        ComputerAi {
            reaction_delay: (200 + (200 - difficulty) * 5) as u64,
            last_ball_direction: 0,
            reaction_timer: 0,
            prediction_error: (2000 + (100 - difficulty) * 25) as i64,
            max_speed: (800 + difficulty * 85 / 10) as i64,
            current_speed: 0,
            target_position: 0,
            fatigue: 0,
            last_update: None,
        }
    }

    /// The bounds that every tick keeps.
    pub open spec fn wf(self) -> bool {
        &&& self.reaction_delay <= 1_200
        &&& -500 <= self.prediction_error <= 4_500
        &&& 0 <= self.max_speed <= 2_500
        &&& 0 <= self.current_speed <= self.max_speed
        &&& self.fatigue <= 300_000
        &&& -1 <= self.last_ball_direction <= 1
        &&& self.reaction_timer <= 1_400
    }

    /// The controller after one tick.
    pub open spec fn spec_tick(self, v: AiView, d: AiDraws) -> ComputerAi {
        let dt = elapsed(self.last_update, v.now);
        let fatigue = next_fatigue(self.fatigue as int, dt, v.screensaver);
        let dir = direction_of(v.ball_vx);
        let turned = dir != self.last_ball_direction && dir != 0;
        let armed = if turned {
            self.reaction_delay + fatigue / 2000
        } else {
            self.reaction_timer as int
        };
        let timer = vstd::math::max(armed - dt, 0);
        let target = if !ball_coming(v) || timer > 0 {
            drift_target(v)
        } else {
            predicted_target(self, v, d, fatigue)
        };
        let speed = next_speed(
            self.current_speed as int,
            target - paddle_center(v),
            self.max_speed as int,
            dt,
        );
        ComputerAi {
            last_ball_direction: if turned {
                dir
            } else {
                self.last_ball_direction
            },
            reaction_timer: timer as u64,
            current_speed: speed as i64,
            target_position: target as i64,
            fatigue: fatigue as u64,
            last_update: Some(v.now),
            ..self
        }
    }

    /// The paddle's top row after a tick that left the controller as `next`:
    /// the centre moved by the current speed towards the target, with jitter,
    /// and kept so that the paddle lies within the inner rows; where they
    /// cannot hold the paddle it stays.
    pub open spec fn spec_position(next: ComputerAi, v: AiView, d: AiDraws) -> int {
        let c = paddle_center(v);
        let distance = next.target_position - c;
        let pursuit = if distance >= 0 {
            next.current_speed as int
        } else {
            -next.current_speed
        };
        let movement = pursuit + jitter_of(
            v.screensaver,
            d.jitter as int,
            next.fatigue as int,
        );
        if lowest_center(v) <= highest_center(v) {
            (clamp(c + movement, lowest_center(v), highest_center(v)) - v.bar_length * 500) / 1000
        } else {
            v.bar_position as int
        }
    }
}

fn elapsed_ms(last_update: Option<u64>, now: u64) -> (r: u64)
    ensures
        r == elapsed(last_update, now),
{
    match last_update {
        None => 0,
        Some(t) => if now >= t {
            now - t
        } else {
            0
        },
    }
}

fn fatigue_after(fatigue: u64, dt: u64, screensaver: bool) -> (r: u64)
    requires
        fatigue <= 300_000,
    ensures
        r == next_fatigue(fatigue as int, dt as int, screensaver),
{
    let rate: u64 = if screensaver { 1 } else { 9 };
    let cap: u64 = if screensaver { 50_000 } else { 300_000 };
    if dt >= cap {
        assert(fatigue + dt * rate >= cap) by (nonlinear_arith)
            requires dt >= cap, rate >= 1, fatigue >= 0;
        cap
    } else {
        assert(dt * rate <= 300_000 * 9) by (nonlinear_arith)
            requires dt < 300_000, rate <= 9;
        let f = fatigue + dt * rate;
        if f < cap { f } else { cap }
    }
}

fn inner_rows_of(v: AiView) -> (r: u16)
    ensures
        r == inner_rows(v),
{
    if v.area_height >= 2 {
        v.area_height - 2
    } else {
        0
    }
}

fn top_travel_of(v: AiView) -> (r: u16)
    ensures
        r == top_travel(v),
{
    let rows = inner_rows_of(v);
    if rows >= v.bar_length as u16 {
        rows - v.bar_length as u16
    } else {
        0
    }
}

fn drift(v: AiView) -> (r: i64)
    ensures
        r == drift_target(v),
        -70_000_000 <= r <= 70_000_000,
{
    let c: i64 = v.bar_position as i64 * 1000 + v.bar_length as i64 * 500;
    let mid: i64 = inner_rows_of(v) as i64 * 500;
    c + floor_div(mid - c, 10)
}

fn fold(p: i64, h: i64) -> (r: i64)
    requires
        -10_000_000_000 <= p <= 10_000_000_000,
        0 <= h <= 70_000_000,
    ensures
        r == fold_into(p as int, h as int),
        0 <= r <= h,
{
    if h <= 0 {
        0
    } else {
        let m = floor_mod(p, 2 * h);
        if m > h {
            2 * h - m
        } else {
            m
        }
    }
}

fn projected(v: AiView) -> (r: i64)
    requires
        v.valid(),
        v.ball_vx != 0,
    ensures
        r == projected_row(v),
        -10_000_000_000 <= r <= 10_000_000_000,
{
    let px: i64 = if v.left_side {
        3
    } else if v.area_width >= 7 {
        (v.area_width - 7) as i64
    } else {
        0
    };
    let s: i64 = if v.ball_vx > 0 { 1 } else { -1 };
    let dx: i64 = px - v.ball_x as i64;
    let vy: i64 = v.ball_vy as i64;
    assert(-127 * 65535 <= vy * dx <= 127 * 65535) by (nonlinear_arith)
        requires -127 <= vy <= 127, -65535 <= dx <= 65535;
    let num: i64 = vy * dx * 1000 * s;
    let den: i64 = if v.ball_vx > 0 {
        v.ball_vx as i64
    } else {
        -(v.ball_vx as i64)
    };
    assert(den == v.ball_vx * s && den >= 1) by (nonlinear_arith)
        requires
            s == 1 || s == -1,
            (s == 1) == (v.ball_vx > 0),
            v.ball_vx != 0,
            v.ball_vx > 0 ==> den == v.ball_vx,
            v.ball_vx <= 0 ==> den == -v.ball_vx;
    assert(px == paddle_column(v));
    assert(s == direction_of(v.ball_vx) as int);
    let q = floor_div(num, den);
    assert(-127 * 65535 * 1000 <= q <= 127 * 65535 * 1000) by (nonlinear_arith)
        requires q == num / den, den >= 1, -127 * 65535 * 1000 <= num <= 127 * 65535 * 1000;
    v.ball_y as i64 * 1000 + q
}

fn predict(ai: &ComputerAi, v: AiView, d: AiDraws, fatigue: u64) -> (r: i64)
    requires
        ai.wf(),
        v.valid(),
        d.valid(),
        v.ball_vx != 0,
        fatigue <= 300_000,
    ensures
        r == predicted_target(*ai, v, d, fatigue as int),
        -70_000_000 <= r <= 70_000_000,
{
    let ss = v.screensaver;
    let p1 = fold(projected(v), inner_rows_of(v) as i64 * 1000);
    let pe = ai.prediction_error;
    let mag: i64 = if ss {
        floor_div(pe * 3, 10)
    } else {
        assert(-500 * 1_300_000 <= pe * (1_000_000 + fatigue as i64) <= 4_500 * 1_300_000)
            by (nonlinear_arith)
            requires -500 <= pe <= 4_500, 0 <= fatigue <= 300_000;
        floor_div(pe * (1_000_000 + fatigue as i64), 1_000_000)
    };
    assert(-1000 <= mag <= 6_000) by (nonlinear_arith)
        requires
            ss ==> mag == (pe * 3) / 10,
            !ss ==> mag == (pe * (1_000_000 + fatigue)) / 1_000_000,
            -500 <= pe <= 4_500, 0 <= fatigue <= 300_000;
    let e: i64 = d.error as i64 - 500;
    assert(-500 * 6_000 <= e * mag <= 500 * 6_000) by (nonlinear_arith)
        requires -1000 <= mag <= 6_000, -500 <= e <= 499;
    let p2 = p1 + floor_div(e * mag, 1000);
    assert(-3_001 <= (e * mag) / 1000 <= 3_000) by (nonlinear_arith)
        requires -500 * 6_000 <= e * mag <= 500 * 6_000;
    let oops: u64 = if ss { 10 } else { 50 + fatigue / 10_000 };
    let p3 = if (d.oops_roll as u64) < oops {
        p2 + (d.oops as i64 - 500) * 3
    } else {
        p2
    };
    let extra: u16 = if ss { 20 } else { 100 };
    let p4 = if d.extra_roll < extra {
        p3 + (d.extra as i64 - 500)
    } else {
        p3
    };
    let top: i64 = top_travel_of(v) as i64 * 1000;
    if p4 < 0 {
        0
    } else if p4 > top {
        top
    } else {
        p4
    }
}

fn speed_after(speed: i64, distance: i64, max_speed: i64, dt: u64) -> (r: i64)
    requires
        0 <= speed <= max_speed <= 2_500,
        -200_000_000 <= distance <= 200_000_000,
    ensures
        r == next_speed(speed as int, distance as int, max_speed as int, dt as int),
        0 <= r <= max_speed,
{
    let abs: i64 = if distance >= 0 { distance } else { -distance };
    let desired: i64 = if abs < max_speed { abs } else { max_speed };
    if abs > 500 {
        if dt > 10_000 {
            desired
        } else {
            let up = speed + 2 * dt as i64;
            if up < desired { up } else { desired }
        }
    } else {
        if dt > 10_000 {
            0
        } else {
            let down = speed - 4 * dt as i64;
            if down > 0 { down } else { 0 }
        }
    }
}

fn place(v: AiView, next: &ComputerAi, d: AiDraws) -> (r: u16)
    requires
        next.wf(),
        d.valid(),
        -70_000_000 <= next.target_position <= 70_000_000,
    ensures
        r == ComputerAi::spec_position(*next, v, d),
        lowest_center(v) <= highest_center(v) ==> r + v.bar_length <= inner_rows(v),
        lowest_center(v) > highest_center(v) ==> r == v.bar_position,
{
    let ss = v.screensaver;
    let fatigue = next.fatigue;
    let speed = next.current_speed;
    let c: i64 = v.bar_position as i64 * 1000 + v.bar_length as i64 * 500;
    let distance = next.target_position - c;
    let j: i64 = d.jitter as i64 - 500;
    assert(-500 * 2 * 1_300_000 <= j * 2 * (1_000_000 + fatigue as i64) <= 500 * 2 * 1_300_000)
        by (nonlinear_arith)
        requires -500 <= j <= 499, 0 <= fatigue <= 300_000;
    let jitter: i64 = if ss {
        floor_div(j * 2 * (1_000_000 + fatigue as i64), 100_000_000)
    } else {
        0
    };
    assert(-14 <= jitter <= 14) by (nonlinear_arith)
        requires
            ss ==> jitter == ((d.jitter - 500) * 2 * (1_000_000 + fatigue)) / 100_000_000,
            !ss ==> jitter == 0,
            -500 * 2 * 1_300_000 <= (d.jitter - 500) * 2 * (1_000_000 + fatigue) <= 500 * 2 * 1_300_000;
    let movement: i64 = if distance >= 0 { speed + jitter } else { -speed + jitter };
    assert(jitter == jitter_of(ss, d.jitter as int, next.fatigue as int));
    let lo: i64 = v.bar_length as i64 * 500;
    let rows: i64 = inner_rows_of(v) as i64;
    let hi: i64 = (rows - v.bar_length as i64) * 1000 + lo;
    if lo <= hi {
        let moved = c + movement;
        let placed = if moved < lo {
            lo
        } else if moved > hi {
            hi
        } else {
            moved
        };
        let top = floor_div(placed - lo, 1000);
        assert(0 <= top) by (nonlinear_arith)
            requires top == (placed - lo) / 1000, placed >= lo;
        assert(placed == clamp(c + movement, lowest_center(v), highest_center(v)));
        assert(top + v.bar_length <= rows) by (nonlinear_arith)
            requires top == (placed - lo) / 1000, placed - lo >= 0, placed <= hi,
                hi == (rows - v.bar_length) * 1000 + lo;
        assert(top <= 65535);
        assert(top == ComputerAi::spec_position(*next, v, d));
        top as u16
    } else {
        assert(v.bar_position == ComputerAi::spec_position(*next, v, d));
        v.bar_position
    }
}

impl ComputerAi {
    /// A controller tuned for `difficulty` (hundredths): the harder, the
    /// quicker its reactions, the smaller its errors and the faster it moves.
    pub fn new(difficulty: u32) -> (r: ComputerAi)
        requires
            difficulty <= MAX_DIFFICULTY,
        ensures
            r == ComputerAi::spec_new(difficulty as int),
            r.wf(),
    {
        let d = difficulty as i64;
        ComputerAi {
            reaction_delay: (200 + (200 - difficulty) * 5) as u64,
            last_ball_direction: 0,
            reaction_timer: 0,
            prediction_error: 2000 + (100 - d) * 25,
            max_speed: 800 + d * 85 / 10,
            current_speed: 0,
            target_position: 0,
            fatigue: 0,
            last_update: None,
        }
    }

    /// One tick of the controller: it ages, re-arms its reaction delay when
    /// the ball turns, picks a target (a drift towards the middle, or the
    /// ball's predicted row with errors once it reacts) and moves towards it
    /// smoothly. Returns the paddle's new top row.
    pub fn tick(&mut self, v: AiView, d: AiDraws) -> (r: u16)
        requires
            old(self).wf(),
            v.valid(),
            d.valid(),
        ensures
            *final(self) == old(self).spec_tick(v, d),
            r == ComputerAi::spec_position(*final(self), v, d),
            final(self).wf(),
            lowest_center(v) <= highest_center(v) ==> r + v.bar_length <= inner_rows(v),
            lowest_center(v) > highest_center(v) ==> r == v.bar_position,
    {
        let ss = v.screensaver;
        let dt = elapsed_ms(self.last_update, v.now);
        let fatigue = fatigue_after(self.fatigue, dt, ss);
        let dir: i8 = if v.ball_vx > 0 {
            1
        } else if v.ball_vx < 0 {
            -1
        } else {
            0
        };
        if dir != self.last_ball_direction && dir != 0 {
            self.last_ball_direction = dir;
            self.reaction_timer = self.reaction_delay + fatigue / 2000;
        }
        self.reaction_timer = if self.reaction_timer > dt {
            self.reaction_timer - dt
        } else {
            0
        };
        let coming = if v.left_side {
            v.ball_vx < 0
        } else {
            v.ball_vx > 0
        };
        let c: i64 = v.bar_position as i64 * 1000 + v.bar_length as i64 * 500;
        let target = if !coming || self.reaction_timer > 0 {
            drift(v)
        } else {
            predict(self, v, d, fatigue)
        };
        let speed = speed_after(self.current_speed, target - c, self.max_speed, dt);
        self.current_speed = speed;
        self.target_position = target;
        self.fatigue = fatigue;
        self.last_update = Some(v.now);
        place(v, self, d)
    }
}

/// The target of a controller that tracks the ball lies within the legal
/// travel of the paddle's top row, inside the court's inner rows.
pub proof fn lemma_target_in_travel(ai: ComputerAi, v: AiView, d: AiDraws, fatigue: int)
    ensures
        0 <= predicted_target(ai, v, d, fatigue) <= top_travel(v) * 1000,
{
}

/// From one tick to the next a controller's fatigue never decreases, and it
/// never passes the ceiling of the controller's mode.
pub proof fn lemma_fatigue_monotone(ai: ComputerAi, v: AiView, d: AiDraws)
    requires
        ai.fatigue <= fatigue_cap(v.screensaver),
    ensures
        ai.fatigue <= ai.spec_tick(v, d).fatigue <= fatigue_cap(v.screensaver),
{
    let dt = elapsed(ai.last_update, v.now);
    assert(dt * fatigue_rate(v.screensaver) >= 0) by (nonlinear_arith)
        requires dt >= 0, fatigue_rate(v.screensaver) >= 1;
}

} // verus!
