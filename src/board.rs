use vstd::prelude::*;
use crate::color::Color;

verus! {

// Lengths on the board are in tenths of a pixel.

/// Tiles across and down.
pub const TILES_ACROSS: i64 = 11;
pub const TILES_DOWN: i64 = 7;

/// Side of a tile, and width of the line between two tiles.
pub const TILE_SIZE: i64 = 1100;
pub const DELIM_WIDTH: i64 = 55;

/// Width and height of the board: its tiles and the lines between them.
pub const BOARD_WIDTH: i64 = 12_650;
pub const BOARD_HEIGHT: i64 = 8_030;

/// One step of the pawn: a tile and a line.
pub const STEP: i64 = 1_155;

/// Directions of a step on the board; up is toward smaller `y`.
#[derive(Clone, Copy, Debug, PartialEq, Eq, Structural)]
pub enum Direction {
    Up,
    Down,
    Right,
    Left,
}

/// A checkered board of two alternating tile colours.
#[derive(Clone, Copy, Debug, PartialEq, Eq, Structural)]
pub struct Grid {
    pub bg_color: Color,
    pub tile_color: Color,
    pub tile_color_alt: Color,
}

/// A round piece that walks the board and wraps around its edges.
#[derive(Clone, Copy, Debug)]
pub struct Pawn {
    pub pos: (i64, i64),
    pub color: Color,
    pub border_color: Color,
}

/// A coordinate past an edge comes back half a tile in from the other edge.
pub open spec fn wrap(v: int, size: int) -> int {
    if v < 0 {
        size - TILE_SIZE / 2
    } else if v > size {
        TILE_SIZE / 2
    } else {
        v
    }
}

/// Where a step in `dir` from `pos` lands.
pub open spec fn stepped(pos: (i64, i64), dir: Direction) -> (int, int) {
    let (x, y) = match dir {
        Direction::Up => (pos.0 as int, pos.1 - STEP),
        Direction::Down => (pos.0 as int, pos.1 + STEP),
        Direction::Right => (pos.0 + STEP, pos.1 as int),
        Direction::Left => (pos.0 - STEP, pos.1 as int),
    };
    (wrap(x, BOARD_WIDTH as int), wrap(y, BOARD_HEIGHT as int))
}

fn wrap_coord(v: i64, size: i64) -> (r: i64)
    requires
        TILE_SIZE <= size,
    ensures
        r == wrap(v as int, size as int),
{
    if v < 0 {
        size - TILE_SIZE / 2
    } else if v > size {
        TILE_SIZE / 2
    } else {
        v
    }
}

impl Grid {
    /// A gray background with orange and dark brown tiles.
    pub fn new() -> (r: Grid)
        ensures
            r == (Grid { bg_color: Color::Gray, tile_color: Color::Orange, tile_color_alt: Color::DarkBrown }),
    {
        Grid { bg_color: Color::Gray, tile_color: Color::Orange, tile_color_alt: Color::DarkBrown }
    }

    /// Colour of the tile in column `i` and row `j`.
    pub fn tile_at(&self, i: i64, j: i64) -> (r: Color)
        requires
            0 <= i,
            0 <= j,
        ensures
            r == if (i % 2 == 0) != (j % 2 == 0) {
                self.tile_color
            } else {
                self.tile_color_alt
            },
    {
        if (i % 2 == 0) != (j % 2 == 0) {
            self.tile_color
        } else {
            self.tile_color_alt
        }
    }

    /// Swaps the two tile colours.
    pub fn invert_colors(&mut self)
        ensures
            *final(self) == (Grid {
                tile_color: old(self).tile_color_alt,
                tile_color_alt: old(self).tile_color,
                ..*old(self)
            }),
    {
        let c = self.tile_color;
        self.tile_color = self.tile_color_alt;
        self.tile_color_alt = c;
    }
}

impl Pawn {
    pub open spec fn wf(&self) -> bool {
        0 <= self.pos.0 <= BOARD_WIDTH && 0 <= self.pos.1 <= BOARD_HEIGHT
    }

    /// A sky-blue pawn with a red border in the middle of the board.
    pub fn new() -> (r: Pawn)
        ensures
            r == (Pawn { pos: (6_325i64, 4_015i64), color: Color::SkyBlue, border_color: Color::Red }),
            r.wf(),
    {
        Pawn { pos: (BOARD_WIDTH / 2, BOARD_HEIGHT / 2), color: Color::SkyBlue, border_color: Color::Red }
    }

    /// Swaps the fill and border colours.
    pub fn invert_colors(&mut self)
        ensures
            *final(self) == (Pawn { color: old(self).border_color, border_color: old(self).color, ..*old(self) }),
    {
        let c = self.color;
        self.color = self.border_color;
        self.border_color = c;
    }

    /// Moves one step in `dir`, wrapping around the board's edges.
    pub fn step(&mut self, dir: Direction)
        requires
            old(self).wf(),
        ensures
            final(self).pos.0 == stepped(old(self).pos, dir).0,
            final(self).pos.1 == stepped(old(self).pos, dir).1,
            final(self).color == old(self).color,
            final(self).border_color == old(self).border_color,
            final(self).wf(),
    {
        let (mut x, mut y) = self.pos;
        match dir {
            Direction::Up => y = y - STEP,
            Direction::Down => y = y + STEP,
            Direction::Right => x = x + STEP,
            Direction::Left => x = x - STEP,
        }
        self.pos = (wrap_coord(x, BOARD_WIDTH), wrap_coord(y, BOARD_HEIGHT));
    }
}

} // verus!
