use vstd::prelude::*;
use vstd::arithmetic::div_mod::lemma_div_is_ordered;
use crate::ball::Ball;
use crate::frog::Frog;
use crate::mob::{Mob, forces, moved, forces_on, moved_by, on_ground, is_on_ground};
use crate::terrain::VOID_END;
use crate::vec3::{
    Vec3, UNIT, sat, div_trunc, in_range, sat_add, scale_wide, isqrt, floor_sqrt,
};

verus! {

/// Height of the eyes above the feet.
pub const CAM_HEIGHT: i64 = 1_690_000;

/// Width (forward) and depth (right) of the player's body.
pub const BODY_FORWARD: i64 = 260_000;
pub const BODY_RIGHT: i64 = 410_000;

/// Mouse sensitivity: microradians turned per pixel and microsecond, as
/// one over this.
pub const LOOK_DIVISOR: i64 = 50;

/// Largest pitch up or down, in microradians: straight up.
pub const MAX_PITCH: i64 = 1_500_000;

/// Field of view in millionths: default, narrowest and widest.
pub const FOV_DEFAULT: i64 = 45_300_000;
pub const FOV_MIN: i64 = 44_270_000;
pub const FOV_MAX: i64 = 46_030_000;

/// Change of field of view, in millionths per microsecond.
pub const ZOOM_SPEED: i64 = 2;

/// Walking speed gained per second of pushing forward, in metres per
/// second; strafing and backing off gain half of it.
pub const WALK_SPEED: i64 = 35;

/// Upward speed of a jump.
pub const JUMP_SPEED: i64 = 10_000_000;

/// Speed multiplier while sprinting.
pub const SPRINT_COEFF: i64 = 2;

/// Speed at which a ball leaves the player's hand, in metres per second.
pub const THROW_SPEED: i64 = 20;

/// Share of the player's velocity that a kick hands over.
pub const PUSH_SHARE: i64 = 4;

/// Directions to accelerate in, relative to where the player faces.
#[derive(Clone, Copy, Debug, PartialEq, Eq, Structural)]
pub enum Direction {
    Front,
    Back,
    Right,
    Left,
}

#[derive(Clone, Copy, Debug, PartialEq, Eq, Structural)]
pub enum ZoomKind {
    In,
    Out,
}

/// What the camera needs: where the eyes are, where they look and how wide.
#[derive(Clone, Copy, Debug, PartialEq, Eq, Structural)]
pub struct Cam {
    pub position: Vec3,
    pub front: Vec3,
    pub fovy: i64,
}

/// The player: a body with a camera at eye height and an orientation.
#[derive(Clone, Copy, Debug)]
pub struct Player {
    /// Position of the feet.
    pub pos: Vec3,
    pub vel: Vec3,
    /// Pitch and yaw in microradians.
    pub pitch: i64,
    pub yaw: i64,
    /// Unit vectors, scaled by `UNIT`, for forward and right.
    pub front: Vec3,
    pub right: Vec3,
    pub fovy: i64,
    pub is_sprinting: bool,
    pub is_showing_stats: bool,
    pub is_victorious: bool,
}

/// Field of view after zooming `kind` for `dt` microseconds.
pub open spec fn zoomed(fovy: int, kind: ZoomKind, dt: int) -> int {
    match kind {
        ZoomKind::In => if fovy - ZOOM_SPEED * dt < FOV_MIN {
            FOV_MIN as int
        } else {
            fovy - ZOOM_SPEED * dt
        },
        ZoomKind::Out => if fovy + ZOOM_SPEED * dt > FOV_MAX {
            FOV_MAX as int
        } else {
            fovy + ZOOM_SPEED * dt
        },
    }
}

/// A component of a unit vector scaled by `UNIT`.
pub open spec fn unit_range(v: int) -> bool {
    -(UNIT as int) <= v <= UNIT as int
}

pub open spec fn unit_ok(v: Vec3) -> bool {
    unit_range(v.x as int) && unit_range(v.y as int) && unit_range(v.z as int)
}

/// The horizontal part of `v` stretched to length `UNIT`, rounding toward
/// zero; nothing where `v` is vertical.
pub open spec fn flat_unit(v: Vec3) -> Vec3 {
    let len = floor_sqrt(v.x * v.x + v.z * v.z);
    if len == 0 {
        Vec3 { x: 0, y: 0, z: 0 }
    } else {
        Vec3 {
            x: div_trunc(v.x * UNIT, len) as i64,
            y: 0,
            z: div_trunc(v.z * UNIT, len) as i64,
        }
    }
}

/// Speed gained along unit vector `h` over `dt` microseconds at strafing
/// pace, `WALK_SPEED / 2` metres per second per second, rounding toward zero.
pub open spec fn gain(h: Vec3, dt: int) -> Vec3 {
    Vec3 {
        x: sat(div_trunc(h.x * (dt * WALK_SPEED), 2 * UNIT)) as i64,
        y: sat(div_trunc(h.y * (dt * WALK_SPEED), 2 * UNIT)) as i64,
        z: sat(div_trunc(h.z * (dt * WALK_SPEED), 2 * UNIT)) as i64,
    }
}

/// Each component multiplied by `k`.
pub open spec fn times(v: Vec3, k: int) -> Vec3 {
    Vec3 { x: (v.x * k) as i64, y: (v.y * k) as i64, z: (v.z * k) as i64 }
}

pub open spec fn neg(v: Vec3) -> Vec3 {
    Vec3 { x: -v.x as i64, y: -v.y as i64, z: -v.z as i64 }
}

/// `v` with `d` added `n` times.
pub open spec fn add_times(v: Vec3, d: Vec3, n: nat) -> Vec3
    decreases n,
{
    if n == 0 {
        v
    } else {
        add_times(v, d, (n - 1) as nat).add_spec(d)
    }
}

pub open spec fn clamp(v: int, lo: int, hi: int) -> int {
    if v < lo {
        lo
    } else if v > hi {
        hi
    } else {
        v
    }
}

impl Player {
    pub open spec fn wf(&self) -> bool {
        &&& self.pos.wf()
        &&& self.vel.wf()
        &&& -MAX_PITCH <= self.pitch <= MAX_PITCH
        &&& in_range(self.yaw as int)
        &&& unit_ok(self.front)
        &&& unit_ok(self.right)
        &&& FOV_MIN <= self.fovy <= FOV_MAX
    }

    pub open spec fn in_void(&self) -> bool {
        self.pos.y <= VOID_END
    }

    /// Free to accelerate: on the ground, or victorious and above the void.
    pub open spec fn may_move(&self) -> bool {
        (self.is_victorious && !self.in_void()) || on_ground(self.pos)
    }

    /// Speed multiplier for the current sprint state.
    pub open spec fn mult(&self) -> int {
        if self.is_sprinting {
            SPRINT_COEFF as int
        } else {
            1
        }
    }

    /// Change of velocity that `accel(dir, dt)` makes without sprinting:
    /// the strafing gain, doubled forward and reversed backward and left.
    pub open spec fn walk_delta(&self, dir: Direction, dt: int) -> Vec3 {
        match dir {
            Direction::Front => times(gain(flat_unit(self.front), dt), 2),
            Direction::Back => times(gain(flat_unit(self.front), dt), -1),
            Direction::Right => gain(flat_unit(self.right), dt),
            Direction::Left => times(gain(flat_unit(self.right), dt), -1),
        }
    }

    /// Change of velocity that `accel(dir, dt)` makes: the walking change
    /// times the sprint multiplier.
    pub open spec fn accel_delta(&self, dir: Direction, dt: int) -> Vec3 {
        times(self.walk_delta(dir, dt), self.mult())
    }

    /// The player after `accel(dir, dt)`.
    pub open spec fn accelerated(self, dir: Direction, dt: int) -> Player {
        Player { vel: self.vel.add_spec(self.accel_delta(dir, dt)), ..self }
    }

    /// The player after `jump()`.
    pub open spec fn jumped(self) -> Player {
        Player { vel: self.vel.add_spec(Vec3 { x: 0, y: JUMP_SPEED, z: 0 }), ..self }
    }

    /// The player after `super_leap(dt)`.
    pub open spec fn leapt(self, dt: int) -> Player {
        Player {
            vel: add_times(
                add_times(self.vel, self.accel_delta(Direction::Front, dt), 100),
                Vec3 { x: 0, y: JUMP_SPEED, z: 0 },
                3,
            ),
            ..self
        }
    }

    /// The ball that `throw_ball()` returns.
    pub open spec fn thrown(self) -> Ball {
        Ball {
            pos: self.pos.add_spec(Vec3 { x: 0, y: CAM_HEIGHT, z: 0 }),
            vel: self.vel.add_spec(
                Vec3 {
                    x: (self.front.x * THROW_SPEED) as i64,
                    y: (self.front.y * THROW_SPEED) as i64,
                    z: (self.front.z * THROW_SPEED) as i64,
                },
            ),
        }
    }

    /// The player at the origin, at rest, facing forward along x.
    pub open spec fn new_spec() -> Player {
        Player {
            pos: Vec3 { x: 0, y: 0, z: 0 },
            vel: Vec3 { x: 0, y: 0, z: 0 },
            pitch: 0,
            yaw: 0,
            front: Vec3 { x: UNIT, y: 0, z: 0 },
            right: Vec3 { x: 0, y: 0, z: UNIT },
            fovy: FOV_DEFAULT,
            is_sprinting: false,
            is_showing_stats: false,
            is_victorious: false,
        }
    }

    /// The player at the origin, at rest, facing forward along x.
    pub fn new() -> (r: Player)
        ensures
            r == Player::new_spec(),
            r.wf(),
    {
        Player {
            pos: Vec3::zero(),
            vel: Vec3::zero(),
            pitch: 0,
            yaw: 0,
            front: Vec3::new(UNIT, 0, 0),
            right: Vec3::new(0, 0, UNIT),
            fovy: FOV_DEFAULT,
            is_sprinting: false,
            is_showing_stats: false,
            is_victorious: false,
        }
    }

    /// The player can move when on the ground, or when victorious and above
    /// the void.
    pub fn can_move(&self) -> (r: bool)
        requires
            self.wf(),
        ensures
            r == self.may_move(),
    {
        self.is_victorious && !self.is_in_void() || is_on_ground(self.pos)
    }

    /// At or below the depth where the void is complete.
    pub fn is_in_void(&self) -> (r: bool)
        ensures
            r == self.in_void(),
    {
        self.pos.y <= VOID_END
    }

    /// The camera: eyes at `CAM_HEIGHT` above the feet.
    pub fn cam(&self) -> (r: Cam)
        requires
            self.wf(),
        ensures
            r.position == self.pos.add_spec(Vec3 { x: 0, y: CAM_HEIGHT, z: 0 }),
            r.front == self.front,
            r.fovy == self.fovy,
    {
        Cam { position: self.pos.add(&Vec3::new(0, CAM_HEIGHT, 0)), front: self.front, fovy: self.fovy }
    }

    /// Pitch and yaw, in microradians.
    pub fn rot(&self) -> (r: (i64, i64))
        ensures
            r == (self.pitch, self.yaw),
    {
        (self.pitch, self.yaw)
    }

    /// Turns by a mouse movement of `(dx, dy)` pixels over `dt`
    /// microseconds: the pitch stays within `MAX_PITCH`, the yaw is free.
    pub fn look(&mut self, dx: i64, dy: i64, dt: u32)
        requires
            old(self).wf(),
            in_range(dx as int),
            in_range(dy as int),
        ensures
            final(self).pitch == clamp(
                old(self).pitch - sat(div_trunc(dy * dt, LOOK_DIVISOR as int)),
                -MAX_PITCH as int,
                MAX_PITCH as int,
            ),
            final(self).yaw == sat(old(self).yaw + sat(div_trunc(dx * dt, LOOK_DIVISOR as int))),
            *final(self) == (Player { pitch: final(self).pitch, yaw: final(self).yaw, ..*old(self) }),
            final(self).wf(),
    {
        let turn = scale_wide(dy, dt as i64, LOOK_DIVISOR);
        let p = self.pitch as i128 - turn as i128;
        self.pitch = if p < -(MAX_PITCH as i128) {
            -MAX_PITCH
        } else if p > MAX_PITCH as i128 {
            MAX_PITCH
        } else {
            p as i64
        };
        self.yaw = sat_add(self.yaw, scale_wide(dx, dt as i64, LOOK_DIVISOR));
    }

    /// Sets the forward and right unit vectors that follow from the pitch
    /// and yaw.
    pub fn set_orientation(&mut self, front: Vec3, right: Vec3)
        requires
            old(self).wf(),
            unit_ok(front),
            unit_ok(right),
        ensures
            *final(self) == (Player { front, right, ..*old(self) }),
            final(self).wf(),
    {
        self.front = front;
        self.right = right;
    }

    /// Forward and right unit vectors.
    pub fn orientation(&self) -> (r: (Vec3, Vec3))
        ensures
            r == (self.front, self.right),
    {
        (self.front, self.right)
    }

    pub fn fovy(&self) -> (r: i64)
        ensures
            r == self.fovy,
    {
        self.fovy
    }

    /// Narrows or widens the view by `ZOOM_SPEED` per microsecond, within
    /// `[FOV_MIN, FOV_MAX]`.
    pub fn zoom(&mut self, kind: ZoomKind, dt: u32)
        requires
            old(self).wf(),
        ensures
            final(self).fovy == zoomed(old(self).fovy as int, kind, dt as int),
            *final(self) == (Player { fovy: final(self).fovy, ..*old(self) }),
            final(self).wf(),
    {
        let step = ZOOM_SPEED * dt as i64;
        self.fovy = match kind {
            ZoomKind::In => if self.fovy - step < FOV_MIN {
                FOV_MIN
            } else {
                self.fovy - step
            },
            ZoomKind::Out => if self.fovy + step > FOV_MAX {
                FOV_MAX
            } else {
                self.fovy + step
            },
        };
    }

    /// Speeds up along the ground in `dir`, twice as fast forward as
    /// otherwise, and twice as fast again while sprinting.
    pub fn accel(&mut self, dir: Direction, dt: u32)
        requires
            old(self).wf(),
        ensures
            final(self).vel == old(self).vel.add_spec(old(self).accel_delta(dir, dt as int)),
            old(self).accel_delta(dir, dt as int) == times(
                old(self).walk_delta(dir, dt as int),
                old(self).mult(),
            ),
            *final(self) == old(self).accelerated(dir, dt as int),
            final(self).wf(),
    {
        let mult: i64 = if self.is_sprinting { SPRINT_COEFF } else { 1 };
        let (axis, k) = match dir {
            Direction::Front => (self.front, 2i64),
            Direction::Back => (self.front, -1i64),
            Direction::Right => (self.right, 1i64),
            Direction::Left => (self.right, -1i64),
        };
        let h = flatten(axis);
        let g = Vec3 { x: gain_of(h.x, dt), y: gain_of(h.y, dt), z: gain_of(h.z, dt) };
        let f = k * mult;
        let d = Vec3 { x: g.x * f, y: g.y * f, z: g.z * f };
        proof {
            let w = self.walk_delta(dir, dt as int);
            assert(w == times(g, k as int));
            assert(times(w, mult as int) == d) by {
                assert(g.x * k * mult == g.x * f) by (nonlinear_arith)
                    requires
                        f == k * mult,
                ;
                assert(g.y * k * mult == g.y * f) by (nonlinear_arith)
                    requires
                        f == k * mult,
                ;
                assert(g.z * k * mult == g.z * f) by (nonlinear_arith)
                    requires
                        f == k * mult,
                ;
            }
        }
        self.vel = self.vel.add(&d);
    }

    /// Pushes forward a hundred times and jumps three times.
    pub fn super_leap(&mut self, dt: u32)
        requires
            old(self).wf(),
        ensures
            final(self).vel == add_times(
                add_times(old(self).vel, old(self).accel_delta(Direction::Front, dt as int), 100),
                Vec3 { x: 0, y: JUMP_SPEED, z: 0 },
                3,
            ),
            *final(self) == old(self).leapt(dt as int),
            final(self).wf(),
    {
        let ghost start = *self;
        let ghost d = start.accel_delta(Direction::Front, dt as int);
        let mut i: u32 = 0;
        while i < 100
            invariant
                i <= 100,
                self.wf(),
                *self == (Player { vel: self.vel, ..start }),
                self.vel == add_times(start.vel, d, i as nat),
                d == start.accel_delta(Direction::Front, dt as int),
            decreases 100 - i,
        {
            assert(self.accel_delta(Direction::Front, dt as int) == d);
            self.accel(Direction::Front, dt);
            i = i + 1;
        }
        let ghost mid = self.vel;
        let mut j: u32 = 0;
        while j < 3
            invariant
                j <= 3,
                self.wf(),
                *self == (Player { vel: self.vel, ..start }),
                self.vel == add_times(mid, Vec3 { x: 0, y: JUMP_SPEED, z: 0 }, j as nat),
            decreases 3 - j,
        {
            self.jump();
            j = j + 1;
        }
    }

    /// Adds `JUMP_SPEED` to the upward velocity, whatever the player's state.
    pub fn jump(&mut self)
        requires
            old(self).wf(),
        ensures
            final(self).vel == old(self).vel.add_spec(Vec3 { x: 0, y: JUMP_SPEED, z: 0 }),
            *final(self) == old(self).jumped(),
            final(self).wf(),
    {
        self.vel = self.vel.add(&Vec3::new(0, JUMP_SPEED, 0));
    }

    /// A ball leaving the eyes along the line of sight, at `THROW_SPEED` on
    /// top of the player's own velocity.
    pub fn throw_ball(&self) -> (r: Ball)
        requires
            self.wf(),
        ensures
            r.pos == self.pos.add_spec(Vec3 { x: 0, y: CAM_HEIGHT, z: 0 }),
            r.vel == self.vel.add_spec(
                Vec3 {
                    x: (self.front.x * THROW_SPEED) as i64,
                    y: (self.front.y * THROW_SPEED) as i64,
                    z: (self.front.z * THROW_SPEED) as i64,
                },
            ),
            r == self.thrown(),
            r.wf(),
    {
        let eyes = self.pos.add(&Vec3::new(0, CAM_HEIGHT, 0));
        let f = self.front;
        let launch = Vec3::new(f.x * THROW_SPEED, f.y * THROW_SPEED, f.z * THROW_SPEED);
        Ball::new(eyes, self.vel.add(&launch))
    }

    /// Hands a quarter of the player's velocity to `frog`.
    pub fn kick(&self, frog: &mut Frog)
        requires
            self.wf(),
            old(frog).wf(),
        ensures
            final(frog).spec_vel() == old(frog).spec_vel().add_spec(self.vel.div_spec(PUSH_SHARE as int)),
            final(frog).spec_pos() == old(frog).spec_pos(),
            final(frog).spec_color() == old(frog).spec_color(),
            final(frog).wf(),
    {
        frog.push(&self.vel.div(PUSH_SHARE));
    }

    /// One frame: forces first, then displacement. The only thing that moves
    /// the player.
    pub fn update(&mut self, dt: u32)
        requires
            old(self).wf(),
        ensures
            final(self).vel == forces(old(self).pos, old(self).vel, dt as int),
            final(self).pos == moved(old(self).pos, final(self).vel, dt as int),
            *final(self) == (Player { pos: final(self).pos, vel: final(self).vel, ..*old(self) }),
            final(self).wf(),
    {
        self.vel = forces_on(self.pos, self.vel, dt);
        self.pos = moved_by(self.pos, self.vel, dt);
    }
}

/// A component of `gain`: `c * dt * WALK_SPEED / (2 * UNIT)`.
fn gain_of(c: i64, dt: u32) -> (r: i64)
    requires
        unit_range(c as int),
    ensures
        r == sat(div_trunc(c * (dt * WALK_SPEED), 2 * UNIT)),
        -100_000_000_000 <= r <= 100_000_000_000,
{
    let m: i64 = dt as i64 * WALK_SPEED;
    let r = scale_wide(c, m, 2 * UNIT);
    proof {
        let p = c * m;
        assert(-200_000_000_000_000_000 <= p <= 200_000_000_000_000_000) by (nonlinear_arith)
            requires
                p == c * m,
                -1_000_000 <= c <= 1_000_000,
                0 <= m <= 150_323_855_325,
        ;
        if p >= 0 {
            lemma_div_is_ordered(p, 200_000_000_000_000_000, 2_000_000);
            lemma_div_is_ordered(0, p, 2_000_000);
        } else {
            lemma_div_is_ordered(-p, 200_000_000_000_000_000, 2_000_000);
            lemma_div_is_ordered(0, -p, 2_000_000);
        }
    }
    r
}

/// The horizontal part of `v` stretched to length `UNIT`.
fn flatten(v: Vec3) -> (r: Vec3)
    requires
        unit_ok(v),
    ensures
        r == flat_unit(v),
        unit_ok(r),
{
    assert(0 <= v.x * v.x <= 1_000_000_000_000 && 0 <= v.z * v.z <= 1_000_000_000_000)
        by (nonlinear_arith)
        requires
            unit_ok(v),
    ;
    let sq: u64 = (v.x * v.x + v.z * v.z) as u64;
    let len = isqrt(sq);
    if len == 0 {
        return Vec3::zero();
    }
    proof {
        assert(v.x * v.x <= v.x * v.x + v.z * v.z) by (nonlinear_arith);
        assert(v.z * v.z <= v.x * v.x + v.z * v.z) by (nonlinear_arith);
        lemma_abs_le_sqrt(v.x as int, sq as int, len as int);
        lemma_abs_le_sqrt(v.z as int, sq as int, len as int);
        assert(len <= 2_000_000) by (nonlinear_arith)
            requires
                len * len <= sq,
                sq <= 2_000_000_000_000,
        ;
        assert(-(len * UNIT) <= v.x * UNIT <= len * UNIT) by (nonlinear_arith)
            requires
                -len <= v.x <= len,
        ;
        assert(-(len * UNIT) <= v.z * UNIT <= len * UNIT) by (nonlinear_arith)
            requires
                -len <= v.z <= len,
        ;
    }
    let l = len as i64;
    Vec3 { x: div_toward(v.x * UNIT, l), y: 0, z: div_toward(v.z * UNIT, l) }
}

/// Sprinting gains exactly twice the walking speed, and forward gains
/// exactly twice what backing off loses.
pub proof fn lemma_sprint_doubles(p: Player, dir: Direction, dt: int)
    ensures
        (Player { is_sprinting: true, ..p }).accel_delta(dir, dt) == times(
            (Player { is_sprinting: false, ..p }).accel_delta(dir, dt),
            2,
        ),
        p.walk_delta(Direction::Front, dt) == times(p.walk_delta(Direction::Back, dt), -2),
{
    let g = gain(flat_unit(p.front), dt);
    assert(times(times(g, 2), -1) == times(g, -2));
    assert(times(times(g, -1), -2) == times(g, 2));
}

/// No air control: a player that is neither on the ground nor victorious
/// cannot move, whatever its other flags.
pub proof fn lemma_airborne_cannot_move(p: Player)
    requires
        !on_ground(p.pos),
        !p.is_victorious,
    ensures
        !p.may_move(),
{
}

/// A number whose square is at most `n` is at most the square root of `n`.
proof fn lemma_abs_le_sqrt(a: int, n: int, r: int)
    requires
        a * a <= n,
        0 <= r,
        n < (r + 1) * (r + 1),
    ensures
        -r <= a <= r,
{
    if a > r {
        assert((r + 1) * (r + 1) <= a * a) by (nonlinear_arith)
            requires
                a > r >= 0,
        ;
    }
    if a < -r {
        assert((r + 1) * (r + 1) <= a * a) by (nonlinear_arith)
            requires
                a < -r,
                r >= 0,
        ;
    }
}

/// `a / d` rounding toward zero, for `|a| <= d * UNIT`.
fn div_toward(a: i64, d: i64) -> (r: i64)
    requires
        0 < d <= 2_000_000,
        -(d * UNIT) <= a <= d * UNIT,
    ensures
        r == div_trunc(a as int, d as int),
        unit_range(r as int),
{
    proof {
        if a >= 0 {
            assert((a as int) / (d as int) <= UNIT) by (nonlinear_arith)
                requires
                    d > 0,
                    0 <= a <= d * UNIT,
            ;
        } else {
            assert((-(a as int)) / (d as int) <= UNIT) by (nonlinear_arith)
                requires
                    d > 0,
                    0 <= -a <= d * UNIT,
            ;
        }
    }
    if a >= 0 {
        a / d
    } else {
        -((-a) / d)
    }
}

impl Default for Player {
    fn default() -> (r: Player)
        ensures
            r == Player::new_spec(),
    {
        Player::new()
    }
}

impl Mob for Player {
    open spec fn spec_pos(&self) -> Vec3 {
        self.pos
    }

    open spec fn spec_vel(&self) -> Vec3 {
        self.vel
    }

    open spec fn spec_dim(&self) -> Vec3 {
        Vec3 { x: BODY_FORWARD, y: CAM_HEIGHT, z: BODY_RIGHT }
    }

    open spec fn with_vel(&self, v: Vec3) -> Player {
        Player { vel: v, ..*self }
    }

    open spec fn with_pos(&self, p: Vec3) -> Player {
        Player { pos: p, ..*self }
    }

    fn pos(&self) -> (r: Vec3) {
        self.pos
    }

    fn vel(&self) -> (r: Vec3) {
        self.vel
    }

    fn dim(&self) -> (r: Vec3) {
        Vec3::new(BODY_FORWARD, CAM_HEIGHT, BODY_RIGHT)
    }

    fn set_pos(&mut self, val: Vec3) {
        let ghost before = *self;
        self.pos = val;
        assert(*self == before.with_pos(val));
    }

    fn set_vel(&mut self, val: Vec3) {
        let ghost before = *self;
        self.vel = val;
        assert(*self == before.with_vel(val));
    }
}

} // verus!
