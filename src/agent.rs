use vstd::prelude::*;
use rand::rngs::StdRng;
use crate::arith::{floor_div, floor_mod};
use crate::compass::{directions_ok, Compass};
use crate::random::random_below;
use crate::species::Species;
use crate::trail::{square_weight, FieldView, TrailMap};
use crate::units::{ANGLE_STEPS, MAX_FIELD_SIDE, MILLIS, UNIT};

verus! {

/// Denominator of a turn: draws and biases are in thousandths, turn speeds
/// in thousandths of a revolution per second, and time in milliseconds.
pub const TURN_DIVISOR: u64 = 1_000_000_000;

/// One simulated organism. Its position is in thousandths of a cell, its
/// heading in tenths of a degree, and `species` indexes the species table.
#[derive(Clone, Copy, Debug, PartialEq, Eq, Structural)]
pub struct Agent {
    pub x: u64,
    pub y: u64,
    pub angle: u32,
    pub species: u32,
}

/// What the steering rule decides.
#[derive(Clone, Copy, Debug, PartialEq, Eq, Structural)]
pub enum Turn {
    /// Keep the heading.
    Straight,
    /// Turn by a random amount, doubled, with the forward bias.
    Wander,
    Right,
    Left,
}

/// The steering rule over the three sensed weights; ties go straight.
pub open spec fn decide(forward: int, left: int, right: int) -> Turn {
    if forward > left && forward > right {
        Turn::Straight
    } else if forward < left && forward < right {
        Turn::Wander
    } else if right > left {
        Turn::Right
    } else if left > right {
        Turn::Left
    } else {
        Turn::Straight
    }
}

/// Heading `angle` turned by `delta` steps, wrapped into `[0, ANGLE_STEPS)`.
pub open spec fn rotate(angle: int, delta: int) -> int {
    (angle + delta) % (ANGLE_STEPS as int)
}

/// Steps turned for a draw `r` and a bias over `dt` milliseconds, rounded
/// toward negative infinity.
pub open spec fn turn_amount(r: int, bias: int, factor: int, turn_speed: int, dt: int) -> int {
    (r + bias) * factor * turn_speed * dt * ANGLE_STEPS / (TURN_DIVISOR as int)
}

/// The heading after steering, given the three sensed weights and the draw `r`.
pub open spec fn steered(angle: int, forward: int, left: int, right: int, r: int, sp: Species, dt: int) -> int {
    match decide(forward, left, right) {
        Turn::Straight => angle,
        Turn::Wander => rotate(angle, turn_amount(r, sp.forward_bias as int, 2, sp.turn_speed as int, dt)),
        Turn::Right => rotate(angle, -turn_amount(r, sp.right_bias as int, 1, sp.turn_speed as int, dt)),
        Turn::Left => rotate(angle, turn_amount(r, sp.left_bias as int, 1, sp.turn_speed as int, dt)),
    }
}

/// The cell at the centre of the sensor turned `offset` steps from the heading.
pub open spec fn sensor_cell(a: Agent, ds: Seq<(i32, i32)>, distance: int, offset: int) -> (int, int) {
    let d = ds[rotate(a.angle as int, offset)];
    ((a.x + d.0 * distance) / (UNIT as int), (a.y + d.1 * distance) / (UNIT as int))
}

/// The weight read by the sensor turned `offset` steps from the heading.
pub open spec fn sensed(f: FieldView, a: Agent, ds: Seq<(i32, i32)>, sp: Species, offset: int) -> int {
    let c = sensor_cell(a, ds, sp.sensor_distance as int, offset);
    square_weight(f, c.0, c.1, sp.sensor_size as int)
}

/// The heading after sensing the field `f` and steering with the draw `r`.
pub open spec fn steered_heading(f: FieldView, a: Agent, ds: Seq<(i32, i32)>, sp: Species, dt: int, r: int) -> int {
    steered(
        a.angle as int,
        sensed(f, a, ds, sp, 0),
        sensed(f, a, ds, sp, sp.sensor_angle as int),
        sensed(f, a, ds, sp, -sp.sensor_angle),
        r,
        sp,
        dt,
    )
}

/// A coordinate moved by a direction component at `speed` cells per second
/// for `dt` milliseconds.
pub open spec fn next_coord(p: int, d: int, speed: int, dt: int) -> int {
    p + d * speed * dt / (MILLIS as int)
}

pub open spec fn outside(v: int, limit: int) -> bool {
    v < 0 || v >= limit
}

/// A coordinate brought back into `[0, limit)`; one past the end becomes
/// `limit - 1`, one thousandth of a cell inside.
pub open spec fn clamp_position(v: int, limit: int) -> int {
    if v < 0 {
        0
    } else if v >= limit {
        limit - 1
    } else {
        v
    }
}

/// Whether moving along the heading leaves a field of `width` by `height` cells.
pub open spec fn bounces(a: Agent, ds: Seq<(i32, i32)>, sp: Species, dt: int, width: int, height: int) -> bool {
    let d = ds[a.angle as int];
    ||| outside(next_coord(a.x as int, d.0 as int, sp.move_speed as int, dt), width * UNIT)
    ||| outside(next_coord(a.y as int, d.1 as int, sp.move_speed as int, dt), height * UNIT)
}

/// The agent after moving along its heading; if that leaves the field, each
/// coordinate is clamped back in and the heading becomes `heading`.
pub open spec fn moved(a: Agent, ds: Seq<(i32, i32)>, sp: Species, dt: int, width: int, height: int, heading: int) -> Agent {
    let d = ds[a.angle as int];
    let nx = next_coord(a.x as int, d.0 as int, sp.move_speed as int, dt);
    let ny = next_coord(a.y as int, d.1 as int, sp.move_speed as int, dt);
    if bounces(a, ds, sp, dt, width, height) {
        Agent {
            x: clamp_position(nx, width * UNIT) as u64,
            y: clamp_position(ny, height * UNIT) as u64,
            angle: heading as u32,
            species: a.species,
        }
    } else {
        Agent { x: nx as u64, y: ny as u64, angle: a.angle, species: a.species }
    }
}

/// The agent with the heading it steers to in field `f` with draw `r`.
pub open spec fn turned(f: FieldView, a: Agent, ds: Seq<(i32, i32)>, sp: Species, dt: int, r: int) -> Agent {
    Agent { angle: steered_heading(f, a, ds, sp, dt, r) as u32, ..a }
}

/// One agent's whole tick against field `f`: sense, steer with draw `r`,
/// move, and take heading `heading` if the move bounced.
pub open spec fn stepped(f: FieldView, a: Agent, ds: Seq<(i32, i32)>, sp: Species, dt: int, r: int, heading: int) -> Agent {
    moved(turned(f, a, ds, sp, dt, r), ds, sp, dt, f.width, f.height, heading)
}

/// Whether the agent deposits this tick: only when its move did not bounce.
pub open spec fn deposits(f: FieldView, a: Agent, ds: Seq<(i32, i32)>, sp: Species, dt: int, r: int) -> bool {
    !bounces(turned(f, a, ds, sp, dt, r), ds, sp, dt, f.width, f.height)
}

/// Equal weights on all three sensors keep the heading, whatever the draw.
pub proof fn lemma_equal_weights_keep_heading(angle: int, weight: int, r: int, sp: Species, dt: int)
    ensures
        steered(angle, weight, weight, weight, r, sp, dt) == angle,
{
}

/// An agent whose three sensors read the same weight keeps its heading
/// when it steers.
pub proof fn lemma_tie_keeps_heading(f: FieldView, a: Agent, ds: Seq<(i32, i32)>, sp: Species, dt: int, r: int)
    requires
        sensed(f, a, ds, sp, 0) == sensed(f, a, ds, sp, sp.sensor_angle as int),
        sensed(f, a, ds, sp, 0) == sensed(f, a, ds, sp, -sp.sensor_angle),
    ensures
        steered_heading(f, a, ds, sp, dt, r) == a.angle,
{
    lemma_equal_weights_keep_heading(a.angle as int, sensed(f, a, ds, sp, 0), r, sp, dt);
}

/// A move past the right edge is clamped one thousandth of a cell inside
/// it, and the agent takes the heading drawn for the bounce.
pub proof fn lemma_bounce_clamps_right(
    a: Agent,
    ds: Seq<(i32, i32)>,
    sp: Species,
    dt: int,
    width: int,
    height: int,
    heading: int,
)
    requires
        1 <= width <= MAX_FIELD_SIDE,
        1 <= height <= MAX_FIELD_SIDE,
        0 <= heading < ANGLE_STEPS,
        next_coord(a.x as int, ds[a.angle as int].0 as int, sp.move_speed as int, dt) >= width * UNIT,
    ensures
        bounces(a, ds, sp, dt, width, height),
        moved(a, ds, sp, dt, width, height, heading).x == width * UNIT - 1,
        moved(a, ds, sp, dt, width, height, heading).angle == heading,
{
    assert(width * UNIT <= 1_000_000_000) by (nonlinear_arith)
        requires
            width <= 1_000_000,
    ;
}

/// After a whole tick an agent that started inside the field is still
/// inside it, with a valid heading, whatever the draws.
pub proof fn lemma_step_stays_in_field(
    f: FieldView,
    a: Agent,
    ds: Seq<(i32, i32)>,
    sp: Species,
    dt: int,
    r: int,
    heading: int,
)
    requires
        f.wf(),
        f.width <= MAX_FIELD_SIDE,
        f.height <= MAX_FIELD_SIDE,
        directions_ok(ds),
        a.within(f.width, f.height),
        0 <= heading < ANGLE_STEPS,
    ensures
        stepped(f, a, ds, sp, dt, r, heading).within(f.width, f.height),
        stepped(f, a, ds, sp, dt, r, heading).species == a.species,
{
    let t = turned(f, a, ds, sp, dt, r);
    let h = steered_heading(f, a, ds, sp, dt, r);
    assert(0 <= h < ANGLE_STEPS);
    assert(t.angle == h);
    assert(f.width * UNIT <= 1_000_000_000 && f.height * UNIT <= 1_000_000_000) by (nonlinear_arith)
        requires
            f.width <= 1_000_000,
            f.height <= 1_000_000,
    ;
}

/// The steering rule: `Straight` when `forward` beats both sides, `Wander`
/// when both sides beat it, else toward the stronger side, else `Straight`.
pub fn choose_turn(forward: u128, left: u128, right: u128) -> (t: Turn)
    ensures
        t == decide(forward as int, left as int, right as int),
{
    if forward > left && forward > right {
        Turn::Straight
    } else if forward < left && forward < right {
        Turn::Wander
    } else if right > left {
        Turn::Right
    } else if left > right {
        Turn::Left
    } else {
        Turn::Straight
    }
}

/// Heading `angle` turned by `delta` steps.
pub fn rotate_angle(angle: u32, delta: i128) -> (a: u32)
    requires
        -0x1_0000_0000_0000_0000_0000_0000 <= delta <= 0x1_0000_0000_0000_0000_0000_0000,
    ensures
        a == rotate(angle as int, delta as int),
        a < ANGLE_STEPS,
{
    floor_mod(angle as i128 + delta as i128, ANGLE_STEPS as i128) as u32
}

/// Steps turned for the draw `r` (thousandths) with the given bias.
fn turn_steps(r: u64, bias: i32, factor: u32, turn_speed: u32, dt: u32) -> (t: i128)
    requires
        r < UNIT,
        1 <= factor <= 2,
    ensures
        t == turn_amount(r as int, bias as int, factor as int, turn_speed as int, dt as int),
        -0x1_0000_0000_0000_0000_0000_0000 <= t <= 0x1_0000_0000_0000_0000_0000_0000,
{
    let base: i128 = r as i128 + bias as i128;
    let k = 0x1_0000_0000i128;
    assert(-2 * k <= base * factor <= 2 * k) by (nonlinear_arith)
        requires
            -0x8000_0000 <= base <= 0x8000_1000,
            1 <= factor <= 2,
            k == 0x1_0000_0000,
    ;
    let b1 = base * factor as i128;
    assert(-2 * k * k <= b1 * turn_speed <= 2 * k * k) by (nonlinear_arith)
        requires
            -2 * k <= b1 <= 2 * k,
            0 <= turn_speed < k,
            k == 0x1_0000_0000,
    ;
    let b2 = b1 * turn_speed as i128;
    assert(-2 * k * k * k <= b2 * dt <= 2 * k * k * k) by (nonlinear_arith)
        requires
            -2 * k * k <= b2 <= 2 * k * k,
            0 <= dt < k,
            k == 0x1_0000_0000,
    ;
    let b3 = b2 * dt as i128;
    assert(2 * k * k * k == 0x2_0000_0000_0000_0000_0000_0000) by (nonlinear_arith)
        requires
            k == 0x1_0000_0000,
    ;
    assert(-0x2_0000_0000_0000_0000_0000_0000 <= b3 <= 0x2_0000_0000_0000_0000_0000_0000);
    let p = b3 * 3600;
    assert(p == b3 * ANGLE_STEPS);
    let t = floor_div(p, TURN_DIVISOR as i128);
    assert(-0x1_0000_0000_0000_0000_0000_0000 <= t <= 0x1_0000_0000_0000_0000_0000_0000) by (nonlinear_arith)
        requires
            t == p as int / 1_000_000_000,
            -3600 * 2 * k * k * k <= p <= 3600 * 2 * k * k * k,
            k == 0x1_0000_0000,
    ;
    t
}

/// The heading after steering with weights `forward`, `left` and `right`
/// and the uniform draw `r` in thousandths.
pub fn steer_angle(angle: u32, forward: u128, left: u128, right: u128, r: u64, species: &Species, dt: u32) -> (a: u32)
    requires
        r < UNIT,
        angle < ANGLE_STEPS,
    ensures
        a == steered(angle as int, forward as int, left as int, right as int, r as int, *species, dt as int),
        a < ANGLE_STEPS,
{
    match choose_turn(forward, left, right) {
        Turn::Straight => angle,
        Turn::Wander => rotate_angle(angle, turn_steps(r, species.forward_bias, 2, species.turn_speed, dt)),
        Turn::Right => {
            let t = turn_steps(r, species.right_bias, 1, species.turn_speed, dt);
            rotate_angle(angle, -t)
        },
        Turn::Left => rotate_angle(angle, turn_steps(r, species.left_bias, 1, species.turn_speed, dt)),
    }
}

impl Agent {
    /// The agent lies inside a field of `width` by `height` cells and its
    /// heading is one of the `ANGLE_STEPS` headings.
    pub open spec fn within(self, width: int, height: int) -> bool {
        &&& self.x < width * UNIT
        &&& self.y < height * UNIT
        &&& self.angle < ANGLE_STEPS
    }

    /// The cell the agent stands on.
    pub open spec fn cell(self) -> (int, int) {
        (self.x as int / (UNIT as int), self.y as int / (UNIT as int))
    }

    /// An agent at the origin, heading along the x axis, of species 0.
    pub fn default() -> (a: Agent)
        ensures
            a == (Agent { x: 0, y: 0, angle: 0, species: 0 }),
    {
        Agent { x: 0, y: 0, angle: 0, species: 0 }
    }

    /// The same agent with a uniformly random heading.
    pub fn random_angle(self, rng: &mut StdRng) -> (a: Agent)
        ensures
            a == (Agent { angle: a.angle, ..self }),
            a.angle < ANGLE_STEPS,
    {
        let angle = random_below(rng, ANGLE_STEPS as u64) as u32;
        Agent { angle, ..self }
    }

    /// The same agent at a uniformly random position in a field of `width`
    /// by `height` cells.
    pub fn random_position(self, rng: &mut StdRng, width: u32, height: u32) -> (a: Agent)
        requires
            1 <= width <= MAX_FIELD_SIDE,
            1 <= height <= MAX_FIELD_SIDE,
        ensures
            a == (Agent { x: a.x, y: a.y, ..self }),
            a.x < width * UNIT,
            a.y < height * UNIT,
    {
        let x = random_below(rng, width as u64 * UNIT);
        let y = random_below(rng, height as u64 * UNIT);
        Agent { x, y, ..self }
    }

    /// The same agent with a uniformly random species below `species_count`.
    pub fn random_species(self, rng: &mut StdRng, species_count: u32) -> (a: Agent)
        requires
            species_count > 0,
        ensures
            a == (Agent { species: a.species, ..self }),
            a.species < species_count,
    {
        let species = random_below(rng, species_count as u64) as u32;
        Agent { species, ..self }
    }

    pub fn with_species(self, species: u32) -> (a: Agent)
        ensures
            a == (Agent { species, ..self }),
    {
        Agent { species, ..self }
    }

    /// The weight read by the sensor turned `offset` steps from the heading;
    pub fn sense(
        &self,
        field: &TrailMap,
        compass: &Compass,
        species: &Species,
        offset: i64,
    ) -> (w: u128)
        requires
            field.wf(),
            compass.wf(),
            self.within(field.width as int, field.height as int),
            -0x1_0000_0000 <= offset <= 0x1_0000_0000,
        ensures
            w == sensed(field@, *self, compass.directions@, *species, offset as int),
    {
        let heading = rotate_angle(self.angle, offset as i128);
        let d = compass.direction(heading);
        let dist = species.sensor_distance as i128;
        let unit = UNIT as i128;
        proof {
            assert(-0x1_0000_0000_0000 <= d.0 * dist <= 0x1_0000_0000_0000) by (nonlinear_arith)
                requires
                    -1000 <= d.0 <= 1000,
                    0 <= dist <= 0xFFFF_FFFF,
            ;
            assert(-0x1_0000_0000_0000 <= d.1 * dist <= 0x1_0000_0000_0000) by (nonlinear_arith)
                requires
                    -1000 <= d.1 <= 1000,
                    0 <= dist <= 0xFFFF_FFFF,
            ;
            assert(self.x < 1_000_000_000) by (nonlinear_arith)
                requires
                    self.x < field.width * 1000,
                    field.width <= 1_000_000,
            ;
            assert(self.y < 1_000_000_000) by (nonlinear_arith)
                requires
                    self.y < field.height * 1000,
                    field.height <= 1_000_000,
            ;
        }
        let px = self.x as i128 + d.0 as i128 * dist;
        let py = self.y as i128 + d.1 as i128 * dist;
        let cx = floor_div(px, unit);
        let cy = floor_div(py, unit);
        proof {
            assert(-0x1_0000_0000_0000 <= cx <= 0x1_0000_0000_0000) by (nonlinear_arith)
                requires
                    cx == px as int / 1000,
                    -0x1_0000_0000_0000 <= px <= 0x1_0000_0000_0000 + 1_000_000_000,
            ;
            assert(-0x1_0000_0000_0000 <= cy <= 0x1_0000_0000_0000) by (nonlinear_arith)
                requires
                    cy == py as int / 1000,
                    -0x1_0000_0000_0000 <= py <= 0x1_0000_0000_0000 + 1_000_000_000,
            ;
        }
        field.square_weight(cx as i64, cy as i64, species.sensor_size)
    }

    /// The heading after sensing `field` and steering with the uniform draw
    /// `r` in thousandths.
    pub fn steer(
        &self,
        field: &TrailMap,
        compass: &Compass,
        species: &Species,
        dt: u32,
        r: u64,
    ) -> (a: u32)
        requires
            field.wf(),
            compass.wf(),
            self.within(field.width as int, field.height as int),
            r < UNIT,
        ensures
            a == steered_heading(field@, *self, compass.directions@, *species, dt as int, r as int),
            a < ANGLE_STEPS,
    {
        let sa = species.sensor_angle as i64;
        let forward = self.sense(field, compass, species, 0);
        let left = self.sense(field, compass, species, sa);
        let right = self.sense(field, compass, species, -sa);
        steer_angle(self.angle, forward, left, right, r, species, dt)
    }

    /// The agent after moving along its heading for `dt` milliseconds in a
    /// field of `width` by `height` cells, and whether the move bounced.
    /// On a bounce each coordinate is clamped back in and the heading
    /// becomes `heading`.
    pub fn advance(
        &self,
        compass: &Compass,
        species: &Species,
        dt: u32,
        width: usize,
        height: usize,
        heading: u32,
    ) -> (r: (Agent, bool))
        requires
            compass.wf(),
            1 <= width <= MAX_FIELD_SIDE,
            1 <= height <= MAX_FIELD_SIDE,
            self.within(width as int, height as int),
            heading < ANGLE_STEPS,
        ensures
            r.0 == moved(*self, compass.directions@, *species, dt as int, width as int, height as int, heading as int),
            r.1 == bounces(*self, compass.directions@, *species, dt as int, width as int, height as int),
            r.0.within(width as int, height as int),
    {
        let d = compass.direction(self.angle);
        let speed = species.move_speed as i128;
        let t = dt as i128;
        let wl = width as i128 * UNIT as i128;
        let hl = height as i128 * UNIT as i128;
        proof {
            assert(-0x1_0000_0000_0000_0000_0000 <= d.0 * speed * t <= 0x1_0000_0000_0000_0000_0000) by (nonlinear_arith)
                requires
                    -1000 <= d.0 <= 1000,
                    0 <= speed <= 0xFFFF_FFFF,
                    0 <= t <= 0xFFFF_FFFF,
            ;
            assert(-0x1_0000_0000_0000_0000_0000 <= d.1 * speed * t <= 0x1_0000_0000_0000_0000_0000) by (nonlinear_arith)
                requires
                    -1000 <= d.1 <= 1000,
                    0 <= speed <= 0xFFFF_FFFF,
                    0 <= t <= 0xFFFF_FFFF,
            ;
            assert(wl <= 1_000_000_000 && hl <= 1_000_000_000) by (nonlinear_arith)
                requires
                    wl == width * 1000,
                    hl == height * 1000,
                    width <= 1_000_000,
                    height <= 1_000_000,
            ;
        }
        let k = 0x1_0000_0000i128;
        assert(-1000 * k <= d.0 * speed <= 1000 * k && -1000 * k <= d.1 * speed <= 1000 * k) by (nonlinear_arith)
            requires
                -1000 <= d.0 <= 1000,
                -1000 <= d.1 <= 1000,
                0 <= speed < k,
        ;
        let vx = d.0 as i128 * speed;
        let vy = d.1 as i128 * speed;
        assert(-1000 * k * k <= vx * t <= 1000 * k * k && -1000 * k * k <= vy * t <= 1000 * k * k) by (nonlinear_arith)
            requires
                -1000 * k <= vx <= 1000 * k,
                -1000 * k <= vy <= 1000 * k,
                0 <= t < k,
        ;
        let nx = self.x as i128 + floor_div(vx * t, MILLIS as i128);
        let ny = self.y as i128 + floor_div(vy * t, MILLIS as i128);
        let out_x = nx < 0 || nx >= wl;
        let out_y = ny < 0 || ny >= hl;
        if out_x || out_y {
            let cx = if nx < 0 {
                0
            } else if nx >= wl {
                wl - 1
            } else {
                nx
            };
            let cy = if ny < 0 {
                0
            } else if ny >= hl {
                hl - 1
            } else {
                ny
            };
            (Agent { x: cx as u64, y: cy as u64, angle: heading, species: self.species }, true)
        } else {
            (Agent { x: nx as u64, y: ny as u64, angle: self.angle, species: self.species }, false)
        }
    }

    /// One tick of this agent against the read-only `field`: sense, steer
    /// with a fresh uniform draw, move, and on a bounce take a fresh uniform
    /// heading. Also says whether the agent deposits, which it does exactly
    /// when the move did not bounce.
    pub fn step(
        &self,
        field: &TrailMap,
        compass: &Compass,
        species: &Species,
        dt: u32,
        rng: &mut StdRng,
    ) -> (res: (Agent, bool))
        requires
            field.wf(),
            compass.wf(),
            self.within(field.width as int, field.height as int),
        ensures
            exists|r: int, h: int|
                0 <= r < UNIT && 0 <= h < ANGLE_STEPS && res.0 == #[trigger] stepped(
                    field@,
                    *self,
                    compass.directions@,
                    *species,
                    dt as int,
                    r,
                    h,
                ) && res.1 == deposits(field@, *self, compass.directions@, *species, dt as int, r),
            res.0.within(field.width as int, field.height as int),
            res.0.species == self.species,
    {
        let r = random_below(rng, UNIT);
        let angle = self.steer(field, compass, species, dt, r);
        let turned = Agent { angle, ..*self };
        let (next, bounced) = turned.advance(compass, species, dt, field.width, field.height, angle);
        if bounced {
            let h = random_below(rng, ANGLE_STEPS as u64) as u32;
            let bounced_agent = Agent { angle: h, ..next };
            assert(stepped(field@, *self, compass.directions@, *species, dt as int, r as int, h as int) == bounced_agent);
            (bounced_agent, false)
        } else {
            assert(stepped(field@, *self, compass.directions@, *species, dt as int, r as int, 0) == next);
            (next, true)
        }
    }
}

} // verus!
