use treedee::ball::Ball;
use treedee::color::Color;
use treedee::frog::Frog;
use treedee::mob::{intersects, Mob};
use treedee::player::{Direction, Player, ZoomKind, FOV_MAX, FOV_MIN};
use treedee::terrain::is_outside_bounds;
use treedee::vec3::{Vec3, LIMIT};

const FRAME: u32 = 16_667;

#[test]
fn jump_then_one_frame_rises() {
    let mut p = Player::new();
    p.jump();
    assert_eq!(p.vel().y, 10_000_000);
    p.apply_forces(FRAME);
    assert!(p.vel().y < 10_000_000 && p.vel().y > 0);
    assert_eq!(p.vel().y, 8_500_250);
    p.apply_vel(FRAME);
    assert!(p.pos().y > 0);
    assert_eq!(p.pos().y, 141_673);
}

#[test]
fn airborne_frog_falls_under_gravity_and_drag() {
    let mut f = Frog::new(Vec3::new(4_000_000, 4_000_000, -4_000_000), Color::Violet);
    f.update(FRAME);
    assert_eq!(f.vel().y, -495_867);
    assert_eq!(f.pos().y, 3_991_736);
    assert_eq!(f.color(), Color::Violet);
}

#[test]
fn zero_frame_time_changes_nothing() {
    let mut b = Ball::new(Vec3::new(1, 2, 3), Vec3::new(400, -500, 600));
    b.update(0);
    assert_eq!(b.pos(), Vec3::new(1, 2, 3));
    assert_eq!(b.vel(), Vec3::new(400, -500, 600));
}

#[test]
fn floor_stops_a_fall_inside_bounds() {
    let mut b = Ball::new(Vec3::new(0, 10, 0), Vec3::new(0, -5_000_000, 0));
    b.apply_vel(FRAME);
    assert_eq!(b.pos().y, 0);
}

#[test]
fn no_floor_outside_bounds() {
    let mut b = Ball::new(Vec3::new(150_000_000, 10, 0), Vec3::new(0, -6_000_000, 0));
    b.apply_vel(1_000_000);
    assert_eq!(b.pos().y, 10 - 6_000_000);
}

#[test]
fn intersection_is_symmetric() {
    let a = Frog::new(Vec3::new(0, 0, 0), Color::Green);
    let b = Ball::new(Vec3::new(1_000_000, 1_000_000, 1_000_000), Vec3::zero());
    let c = Ball::new(Vec3::new(1_000_001, 0, 0), Vec3::zero());
    assert!(intersects(&a, &b) && intersects(&b, &a));
    assert!(!intersects(&a, &c) && !intersects(&c, &a));
}

#[test]
fn strike_splits_velocity() {
    let mut b = Ball::new(Vec3::zero(), Vec3::new(40_000, -8_000, 7));
    let mut f = Frog::new(Vec3::zero(), Color::Blue);
    f.set_vel(Vec3::new(1, 2, 3));
    b.strike(&mut f);
    assert_eq!(f.vel(), Vec3::new(10_001, -1_998, 4));
    assert_eq!(b.vel(), Vec3::new(4_000, -800, 0));
}

#[test]
fn kick_hands_over_a_quarter() {
    let mut p = Player::new();
    p.set_vel(Vec3::new(8_000, 0, -400));
    let mut f = Frog::new(Vec3::zero(), Color::Blue);
    p.kick(&mut f);
    assert_eq!(f.vel(), Vec3::new(2_000, 0, -100));
}

#[test]
fn velocity_saturates_at_the_limit() {
    let mut b = Ball::new(Vec3::zero(), Vec3::new(LIMIT, 0, 0));
    let mut f = Frog::new(Vec3::zero(), Color::Blue);
    f.set_vel(Vec3::new(LIMIT, 0, 0));
    b.strike(&mut f);
    assert_eq!(f.vel().x, LIMIT);
}

#[test]
fn airborne_player_cannot_move() {
    let mut p = Player::new();
    assert!(p.can_move());
    p.set_pos(Vec3::new(0, 1, 0));
    p.is_sprinting = true;
    p.is_showing_stats = true;
    assert!(!p.can_move());
    p.is_victorious = true;
    assert!(p.can_move());
    p.set_pos(Vec3::new(0, -1_100_000_000, 0));
    assert!(p.is_in_void());
    assert!(!p.can_move());
}

#[test]
fn accel_forward_and_sprint() {
    let mut p = Player::new();
    p.accel(Direction::Front, 1_000_000);
    assert_eq!(p.vel(), Vec3::new(35_000_000, 0, 0));
    let mut q = Player::new();
    q.is_sprinting = true;
    q.accel(Direction::Back, 1_000_000);
    assert_eq!(q.vel(), Vec3::new(-35_000_000, 0, 0));
    let mut r = Player::new();
    r.accel(Direction::Left, 1_000_000);
    assert_eq!(r.vel(), Vec3::new(0, 0, -17_500_000));
}

#[test]
fn accel_uses_the_horizontal_direction() {
    let mut p = Player::new();
    p.set_orientation(Vec3::new(600_000, 800_000, 0), Vec3::new(0, 0, 1_000_000));
    p.accel(Direction::Front, 1_000_000);
    assert_eq!(p.vel(), Vec3::new(35_000_000, 0, 0));
    let mut q = Player::new();
    q.set_orientation(Vec3::new(0, 1_000_000, 0), Vec3::new(0, 0, 1_000_000));
    q.accel(Direction::Front, 1_000_000);
    assert_eq!(q.vel(), Vec3::zero());
}

#[test]
fn look_clamps_pitch() {
    let mut p = Player::new();
    p.look(10, -100_000, 1_000_000);
    assert_eq!(p.rot(), (1_500_000, 200_000));
    p.look(0, 50, 1_000_000);
    assert_eq!(p.rot(), (500_000, 200_000));
}

#[test]
fn zoom_stays_in_band() {
    let mut p = Player::new();
    p.zoom(ZoomKind::In, 100_000);
    assert_eq!(p.fovy(), 45_100_000);
    p.zoom(ZoomKind::In, 10_000_000);
    assert_eq!(p.fovy(), FOV_MIN);
    p.zoom(ZoomKind::Out, 10_000_000);
    assert_eq!(p.fovy(), FOV_MAX);
}

#[test]
fn super_leap_pushes_and_jumps() {
    let mut p = Player::new();
    p.super_leap(10_000);
    assert_eq!(p.vel(), Vec3::new(35_000_000, 30_000_000, 0));
}

#[test]
fn repeated_jumps_add_up() {
    let mut p = Player::new();
    p.jump();
    p.jump();
    assert_eq!(p.vel().y, 20_000_000);
}

#[test]
fn throw_starts_at_the_eyes() {
    let p = Player::new();
    let b = p.throw_ball();
    assert_eq!(b.pos(), Vec3::new(0, 1_690_000, 0));
    assert_eq!(b.vel(), Vec3::new(20_000_000, 0, 0));
}

#[test]
fn bounds() {
    assert!(!is_outside_bounds(Vec3::new(100_000_000, 0, -100_000_000)));
    assert!(is_outside_bounds(Vec3::new(100_000_001, 0, 0)));
    assert!(is_outside_bounds(Vec3::new(0, -1, 0)));
}

#[test]
fn sprint_doubles_the_rounded_gain() {
    let mut walk = Player::new();
    walk.accel(Direction::Back, FRAME);
    assert_eq!(walk.vel(), Vec3::new(-291_672, 0, 0));
    let mut run = Player::new();
    run.is_sprinting = true;
    run.accel(Direction::Back, FRAME);
    assert_eq!(run.vel(), Vec3::new(-583_344, 0, 0));
    let mut fwd = Player::new();
    fwd.accel(Direction::Front, FRAME);
    assert_eq!(fwd.vel(), Vec3::new(583_344, 0, 0));
}
