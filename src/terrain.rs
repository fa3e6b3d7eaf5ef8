use vstd::prelude::*;
use crate::color::Color;
use crate::player::{Player, clamp};
use crate::vec3::{Vec3, sat, div_trunc, scale_wide};

verus! {

/// Side of the square world, centred at the origin.
pub const WIDTH: i64 = 200_000_000;

/// Half the side: the largest horizontal distance still inside bounds.
pub const BORDER: i64 = 100_000_000;

/// Height at which the void begins to darken.
pub const VOID_HEIGHT: i64 = -600_000_000;

/// Depth over which the void goes from its start to full darkness.
pub const VOID_TRANSITION: i64 = 500_000_000;

/// Height at which the void is complete.
pub const VOID_END: i64 = -1_100_000_000;

pub open spec fn abs(v: int) -> int {
    if v < 0 {
        -v
    } else {
        v
    }
}

/// A position is outside bounds below the floor or beyond the border.
pub open spec fn outside_bounds(p: Vec3) -> bool {
    p.y < 0 || abs(p.x as int) > BORDER as int || abs(p.z as int) > BORDER as int
}

pub fn is_outside_bounds(pos: Vec3) -> (r: bool)
    requires
        pos.wf(),
    ensures
        r == outside_bounds(pos),
{
    if pos.y < 0 {
        return true;
    }
    let ax: i64 = if pos.x < 0 { -pos.x } else { pos.x };
    let az: i64 = if pos.z < 0 { -pos.z } else { pos.z };
    ax > BORDER || az > BORDER
}

/// Lateral distance from the origin at which the wall starts to shake.
pub const HALFWAY: i64 = 50_000_000;

/// Side of the wall at rest.
pub const WALL_SIZE: i64 = 400_000_000;

/// Metres the wall moves and stretches per second at full stress.
pub const WALL_SHAKE_COEFF: i64 = 35;
pub const WALL_STRETCH_COEFF: i64 = 90;

/// Range of each coordinate of the wall's position.
pub const WALL_POS_MIN: i64 = -5_000_000;
pub const WALL_POS_MAX: i64 = 5_000_000;

/// Range of each extent of the wall: from 0.8 to 1.2 times its size.
pub const WALL_DIM_MIN: i64 = 320_000_000;
pub const WALL_DIM_MAX: i64 = 480_000_000;

/// Half of the draws of a `u32`: below it a coin shows heads.
pub const HALF_DRAW: u32 = 2_147_483_648;

/// The ground grid and the wall around the world.
#[derive(Clone, Copy, Debug)]
pub struct Terrain {
    pub wall_color: Color,
    pub grid_colors: (Color, Color),
    pub wall_pos: Vec3,
    pub wall_dim: Vec3,
}

/// Distance from the origin along whichever horizontal axis gives more.
pub open spec fn lateral(p: Vec3) -> int {
    if abs(p.x as int) >= abs(p.z as int) {
        abs(p.x as int)
    } else {
        abs(p.z as int)
    }
}

/// The wall shakes while the player is inside bounds, not victorious, and
/// beyond `HALFWAY`.
pub open spec fn shakes(p: Player) -> bool {
    !p.is_victorious && !outside_bounds(p.pos) && lateral(p.pos) > HALFWAY
}

/// How far a wall coordinate moves in `dt` microseconds at `coeff` metres
/// per second, in proportion to how far beyond `HALFWAY` the player stands.
pub open spec fn offset(p: Player, dt: int, coeff: int) -> int {
    sat(div_trunc((lateral(p.pos) - HALFWAY) * (coeff * dt), HALFWAY as int))
}

/// `c` moved by `off` up or down, then held within `[lo, hi]`.
pub open spec fn nudge(c: i64, up: bool, off: int, lo: int, hi: int) -> i64 {
    clamp(if up { c + off } else { c - off }, lo, hi) as i64
}

pub open spec fn nudged(v: Vec3, s: Seq<bool>, first: int, off: int, lo: int, hi: int) -> Vec3 {
    Vec3 {
        x: nudge(v.x, s[first], off, lo, hi),
        y: nudge(v.y, s[first + 1], off, lo, hi),
        z: nudge(v.z, s[first + 2], off, lo, hi),
    }
}

/// Wall colour: red while the player is outside bounds and not victorious.
pub open spec fn wall_color_for(p: Player) -> Color {
    if !p.is_victorious && outside_bounds(p.pos) {
        Color::Red
    } else {
        Color::White
    }
}

/// The wall after a frame of `dt` microseconds, where `s` says for each of
/// the three position and then three extent coordinates whether it moves up.
pub open spec fn wall_after(t: Terrain, p: Player, dt: int, s: Seq<bool>) -> Terrain {
    if shakes(p) {
        Terrain {
            wall_color: wall_color_for(p),
            wall_pos: nudged(
                t.wall_pos,
                s,
                0,
                offset(p, dt, WALL_SHAKE_COEFF as int),
                WALL_POS_MIN as int,
                WALL_POS_MAX as int,
            ),
            wall_dim: nudged(
                t.wall_dim,
                s,
                3,
                offset(p, dt, WALL_STRETCH_COEFF as int),
                WALL_DIM_MIN as int,
                WALL_DIM_MAX as int,
            ),
            ..t
        }
    } else {
        Terrain { wall_color: wall_color_for(p), ..t }
    }
}

/// The first grid colour: yellow while sprinting, else black.
pub open spec fn grid_after(t: Terrain, p: Player) -> Terrain {
    Terrain {
        grid_colors: (if p.is_sprinting { Color::Yellow } else { Color::Black }, t.grid_colors.1),
        ..t
    }
}

pub open spec fn wall_range(v: Vec3, lo: int, hi: int) -> bool {
    lo <= v.x <= hi && lo <= v.y <= hi && lo <= v.z <= hi
}

/// Relies on macroquad::rand::rand: a draw from its process-wide
/// pseudo-random generator; any `u32` may come.
#[verifier::external_body]
fn rand_u32() -> (r: u32) {
    macroquad::rand::rand()
}

/// A coin toss: true for half of the possible draws.
fn rand_true() -> bool {
    rand_u32() < HALF_DRAW
}

/// Distance from the origin along whichever horizontal axis gives more.
fn lateral_distance(pos: Vec3) -> (r: i64)
    requires
        pos.wf(),
    ensures
        r == lateral(pos),
{
    let ax: i64 = if pos.x < 0 { -pos.x } else { pos.x };
    let az: i64 = if pos.z < 0 { -pos.z } else { pos.z };
    if ax >= az {
        ax
    } else {
        az
    }
}

fn wall_shakes(player: &Player) -> (r: bool)
    requires
        player.wf(),
    ensures
        r == shakes(*player),
{
    !player.is_victorious && !is_outside_bounds(player.pos) && lateral_distance(player.pos) > HALFWAY
}

/// `c` moved by `off` up or down, then held within `[lo, hi]`.
fn nudge_coord(c: i64, up: bool, off: i64, lo: i64, hi: i64) -> (r: i64)
    requires
        -1_000_000_000 <= c <= 1_000_000_000,
        0 <= off <= 1_000_000_000_000_000,
        lo <= hi,
    ensures
        r == nudge(c, up, off as int, lo as int, hi as int),
        lo <= r <= hi,
{
    let v = if up {
        c + off
    } else {
        c - off
    };
    if v < lo {
        lo
    } else if v > hi {
        hi
    } else {
        v
    }
}

impl Default for Terrain {
    fn default() -> (r: Terrain)
        ensures
            r == (Terrain {
                wall_color: Color::White,
                grid_colors: (Color::White, Color::Gray),
                wall_pos: Vec3 { x: 0, y: 0, z: 0 },
                wall_dim: Vec3 { x: WALL_SIZE, y: WALL_SIZE, z: WALL_SIZE },
            }),
    {
        Terrain::new()
    }
}

impl Terrain {
    pub open spec fn wf(&self) -> bool {
        wall_range(self.wall_pos, WALL_POS_MIN as int, WALL_POS_MAX as int)
            && wall_range(self.wall_dim, WALL_DIM_MIN as int, WALL_DIM_MAX as int)
    }

    /// A white wall at rest and a white and gray grid.
    pub fn new() -> (r: Terrain)
        ensures
            r == (Terrain {
                wall_color: Color::White,
                grid_colors: (Color::White, Color::Gray),
                wall_pos: Vec3 { x: 0, y: 0, z: 0 },
                wall_dim: Vec3 { x: WALL_SIZE, y: WALL_SIZE, z: WALL_SIZE },
            }),
            r.wf(),
    {
        Terrain {
            wall_color: Color::White,
            grid_colors: (Color::White, Color::Gray),
            wall_pos: Vec3::zero(),
            wall_dim: Vec3::splat(WALL_SIZE),
        }
    }

    /// Reacts to the player: the grid to sprinting, the wall to where the
    /// player stands, with random directions for the shake.
    pub fn update(&mut self, player: &Player, dt: u32)
        requires
            old(self).wf(),
            player.wf(),
        ensures
            exists|s: Seq<bool>|
                s.len() == 6 && *final(self) == wall_after(grid_after(*old(self), *player), *player, dt as int, s),
            final(self).wf(),
    {
        let ghost start = *self;
        let signs: [bool; 6] = if wall_shakes(player) {
            [rand_true(), rand_true(), rand_true(), rand_true(), rand_true(), rand_true()]
        } else {
            [true; 6]
        };
        self.update_grid(player);
        self.update_wall(player, dt, signs);
        assert(signs@.len() == 6 && *self == wall_after(grid_after(start, *player), *player, dt as int, signs@));
    }

    pub fn update_grid(&mut self, player: &Player)
        ensures
            *final(self) == grid_after(*old(self), *player),
    {
        self.grid_colors.0 = if player.is_sprinting {
            Color::Yellow
        } else {
            Color::Black
        };
    }

    /// The wall's reaction to the player, with `signs` saying for the three
    /// position and then the three extent coordinates whether each moves up.
    pub fn update_wall(&mut self, player: &Player, dt: u32, signs: [bool; 6])
        requires
            old(self).wf(),
            player.wf(),
        ensures
            *final(self) == wall_after(*old(self), *player, dt as int, signs@),
            final(self).wf(),
    {
        let pos = player.pos;
        if player.is_victorious {
            self.wall_color = Color::White;
        } else if is_outside_bounds(pos) {
            self.wall_color = Color::Red;
        } else {
            self.wall_color = Color::White;
            let lat = lateral_distance(pos);
            if lat > HALFWAY {
                let beyond = lat - HALFWAY;
                let shake = scale_wide(beyond, WALL_SHAKE_COEFF * dt as i64, HALFWAY);
                let stretch = scale_wide(beyond, WALL_STRETCH_COEFF * dt as i64, HALFWAY);
                proof {
                    assert(shake >= 0 && stretch >= 0);
                }
                self.wall_pos = Vec3 {
                    x: nudge_coord(self.wall_pos.x, signs[0], shake, WALL_POS_MIN, WALL_POS_MAX),
                    y: nudge_coord(self.wall_pos.y, signs[1], shake, WALL_POS_MIN, WALL_POS_MAX),
                    z: nudge_coord(self.wall_pos.z, signs[2], shake, WALL_POS_MIN, WALL_POS_MAX),
                };
                self.wall_dim = Vec3 {
                    x: nudge_coord(self.wall_dim.x, signs[3], stretch, WALL_DIM_MIN, WALL_DIM_MAX),
                    y: nudge_coord(self.wall_dim.y, signs[4], stretch, WALL_DIM_MIN, WALL_DIM_MAX),
                    z: nudge_coord(self.wall_dim.z, signs[5], stretch, WALL_DIM_MIN, WALL_DIM_MAX),
                };
            }
        }
    }
}

} // verus!
