use treedee::ball::Ball;
use treedee::balls::BALLS_MAX;
use treedee::color::Color;
use treedee::frog::Frog;
use treedee::mob::Mob;
use treedee::mouse::Mouse;
use treedee::player::Player;
use treedee::terrain::{Terrain, WALL_DIM_MAX, WALL_DIM_MIN, WALL_POS_MAX, WALL_POS_MIN};
use treedee::vec3::Vec3;
use treedee::world::{Input, World};

const FRAME: u32 = 16_667;

fn herd(world: &mut World, base: Vec3) {
    world.frogs = [
        Frog::new(base, Color::Violet),
        Frog::new(Vec3::new(base.x + 500_000, base.y, base.z), Color::Green),
        Frog::new(Vec3::new(base.x + 900_000, base.y, base.z + 300_000), Color::Blue),
    ];
}

#[test]
fn wall_turns_red_outside_then_white_on_victory() {
    let mut t = Terrain::new();
    let mut p = Player::new();
    p.set_pos(Vec3::new(150_000_000, 0, 0));
    t.update(&p, FRAME);
    assert_eq!(t.wall_color, Color::Red);
    p.is_victorious = true;
    t.update(&p, FRAME);
    assert_eq!(t.wall_color, Color::White);
}

#[test]
fn grid_follows_sprint() {
    let mut t = Terrain::new();
    let mut p = Player::new();
    t.update(&p, FRAME);
    assert_eq!(t.grid_colors, (Color::Black, Color::Gray));
    p.is_sprinting = true;
    t.update(&p, FRAME);
    assert_eq!(t.grid_colors, (Color::Yellow, Color::Gray));
}

#[test]
fn wall_shakes_past_halfway() {
    let mut t = Terrain::new();
    let mut p = Player::new();
    p.set_pos(Vec3::new(75_000_000, 0, 0));
    t.update_wall(&p, 1_000_000, [true, false, true, false, true, false]);
    assert_eq!(t.wall_pos, Vec3::new(5_000_000, -5_000_000, 5_000_000));
    assert_eq!(t.wall_dim, Vec3::new(400_000_000 - 45_000_000, 400_000_000 + 45_000_000, 400_000_000 - 45_000_000));
    for _ in 0..100 {
        t.update(&p, FRAME);
        assert!(t.wall_pos.x >= WALL_POS_MIN && t.wall_pos.x <= WALL_POS_MAX);
        assert!(t.wall_dim.y >= WALL_DIM_MIN && t.wall_dim.y <= WALL_DIM_MAX);
    }
}

#[test]
fn wall_rests_near_the_centre() {
    let mut t = Terrain::new();
    let mut p = Player::new();
    p.set_pos(Vec3::new(50_000_000, 0, -3));
    t.update_wall(&p, 1_000_000, [true; 6]);
    assert_eq!(t.wall_pos, Vec3::zero());
    assert_eq!(t.wall_dim, Vec3::splat(400_000_000));
}

#[test]
fn victory_needs_all_frogs_out_of_bounds() {
    let mut w = World::new();
    herd(&mut w, Vec3::new(99_500_000, 0, 0));
    assert!(!w.game_is_won());
    w.update(FRAME);
    assert!(!w.player.is_victorious);
}

#[test]
fn herded_frogs_out_of_bounds_win_for_good() {
    let mut w = World::new();
    herd(&mut w, Vec3::new(120_000_000, 0, 0));
    assert!(w.game_is_won());
    w.update(FRAME);
    assert!(w.player.is_victorious);
    herd(&mut w, Vec3::new(0, 5_000_000, 0));
    assert!(!w.game_is_won());
    w.update(FRAME);
    assert!(w.player.is_victorious);
}

#[test]
fn two_meeting_frogs_are_not_enough() {
    let mut w = World::new();
    w.frogs = [
        Frog::new(Vec3::new(120_000_000, 0, 0), Color::Violet),
        Frog::new(Vec3::new(120_900_000, 0, 0), Color::Green),
        Frog::new(Vec3::new(121_800_000, 0, 0), Color::Blue),
    ];
    assert!(!w.game_is_won());
}

#[test]
fn new_world_layout() {
    let w = World::new();
    assert_eq!(w.frogs[0].pos(), Vec3::new(4_000_000, 4_000_000, -4_000_000));
    assert_eq!(w.frogs[2].color(), Color::Blue);
    assert!(w.balls().is_empty());
}

#[test]
fn ball_queue_drops_the_oldest() {
    let mut w = World::new();
    for i in 0..(BALLS_MAX as i64 + 1) {
        w.throw_ball(Ball::new(Vec3::new(i, 50_000_000, 0), Vec3::zero()));
    }
    let balls = w.balls();
    assert_eq!(balls.len(), BALLS_MAX);
    assert_eq!(balls[0].pos().x, 1);
    assert_eq!(balls[BALLS_MAX - 1].pos().x, BALLS_MAX as i64);
}

#[test]
fn ball_strikes_a_frog_during_update() {
    let mut w = World::new();
    herd(&mut w, Vec3::new(10_000_000, 0, 10_000_000));
    w.throw_ball(Ball::new(Vec3::new(10_000_000, 0, 10_000_000), Vec3::new(4_000_000, 0, 0)));
    w.throw_ball(Ball::new(Vec3::new(-30_000_000, 0, 0), Vec3::zero()));
    let strikes = w.update(FRAME);
    assert_eq!(strikes, 1);
    let balls = w.balls();
    assert_eq!(balls.len(), 2);
    assert_eq!(balls[1].pos(), Vec3::new(-30_000_000, 0, 0));
    assert!(balls[0].vel().x < 400_000);
    assert!(w.frogs[0].vel().x > 0);
    assert_eq!(w.frogs[2].vel(), Vec3::zero());
}

#[test]
fn player_kicks_a_touching_frog() {
    let mut w = World::new();
    herd(&mut w, Vec3::new(0, 0, 30_000_000));
    w.frogs[0] = Frog::new(Vec3::new(100_000, 0, 100_000), Color::Violet);
    w.player.set_vel(Vec3::new(0, 0, 0));
    w.player.set_pos(Vec3::zero());
    w.player.set_vel(Vec3::new(1_000_000, 0, 0));
    w.update(FRAME);
    assert!(w.frogs[0].vel().x > 0);
    assert_eq!(w.frogs[1].vel(), Vec3::zero());
}

#[test]
fn mouse_movement() {
    let mut m = Mouse::read((100, 200));
    assert!(!m.has_moved());
    m.update((103, 190));
    assert_eq!(m.pos_delta(), (3, -10));
    assert!(m.has_moved());
    m.update((103, 190));
    assert!(!m.has_moved());
}

#[test]
fn player_stays_put_at_rest() {
    let mut p = Player::new();
    p.update(FRAME);
    assert_eq!(p.pos(), Vec3::zero());
    assert_eq!(p.vel(), Vec3::zero());
}

#[test]
fn input_moves_a_grounded_player() {
    let mut w = World::new();
    let input = Input { forward: true, jump: true, sprint: true, toggle_stats: true, ..Input::default() };
    assert!(!w.handle_input(&input, 1_000_000));
    assert_eq!(w.player.vel(), Vec3::new(70_000_000, 10_000_000, 0));
    assert!(w.player.is_sprinting && w.player.is_showing_stats);
}

#[test]
fn no_air_control_from_input() {
    let mut w = World::new();
    w.player.set_pos(Vec3::new(0, 1_000_000, 0));
    let input = Input { forward: true, jump: true, leap: true, zoom_in: true, throw: true, ..Input::default() };
    assert!(w.handle_input(&input, 100_000));
    assert_eq!(w.player.vel(), Vec3::zero());
    assert_eq!(w.player.fovy(), 45_100_000);
    let balls = w.balls();
    assert_eq!(balls.len(), 1);
    assert_eq!(balls[0].pos(), Vec3::new(0, 2_690_000, 0));
}

#[test]
fn new_world_terrain_is_at_rest() {
    let w = World::new();
    assert_eq!(w.terrain.wall_color, Color::White);
    assert_eq!(w.terrain.grid_colors, (Color::White, Color::Gray));
    assert_eq!(w.terrain.wall_pos, Vec3::zero());
    assert_eq!(w.terrain.wall_dim, Vec3::splat(400_000_000));
}
