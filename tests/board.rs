use treedee::board::{Direction, Grid, Pawn};
use treedee::color::Color;

#[test]
fn pawn_starts_in_the_middle() {
    let p = Pawn::new();
    assert_eq!(p.pos, (6_325, 4_015));
    assert_eq!((p.color, p.border_color), (Color::SkyBlue, Color::Red));
}

#[test]
fn pawn_wraps_past_the_top() {
    let mut p = Pawn::new();
    for _ in 0..3 {
        p.step(Direction::Up);
    }
    assert_eq!(p.pos, (6_325, 550));
    p.step(Direction::Up);
    assert_eq!(p.pos, (6_325, 7_480));
}

#[test]
fn pawn_wraps_past_the_right() {
    let mut p = Pawn::new();
    p.step(Direction::Right);
    p.step(Direction::Right);
    assert_eq!(p.pos, (8_635, 4_015));
    for _ in 0..3 {
        p.step(Direction::Right);
    }
    assert_eq!(p.pos, (12_100, 4_015));
    p.step(Direction::Right);
    assert_eq!(p.pos, (550, 4_015));
    p.step(Direction::Left);
    assert_eq!(p.pos, (12_100, 4_015));
    p.step(Direction::Down);
    assert_eq!(p.pos, (12_100, 5_170));
}

#[test]
fn inverting_swaps_colours() {
    let mut p = Pawn::new();
    p.invert_colors();
    assert_eq!((p.color, p.border_color), (Color::Red, Color::SkyBlue));
    let mut g = Grid::new();
    assert_eq!(g.tile_at(0, 1), Color::Orange);
    assert_eq!(g.tile_at(1, 1), Color::DarkBrown);
    g.invert_colors();
    assert_eq!(g.tile_at(0, 1), Color::DarkBrown);
    assert_eq!(g.bg_color, Color::Gray);
}
