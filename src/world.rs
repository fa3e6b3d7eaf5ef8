use vstd::prelude::*;
use crate::ball::{Ball, STRIKE_KEEP, STRIKE_SHARE};
use crate::balls::{BallQueue, BALLS_MAX, queued, enqueued};
use crate::color::Color;
use crate::frog::Frog;
use crate::mob::{Mob, boxes_meet, forces, moved, intersects};
use crate::player::{Direction, Player, ZoomKind, PUSH_SHARE, zoomed};
use crate::terrain::{Terrain, WALL_SIZE, outside_bounds, wall_after, grid_after};
use crate::vec3::Vec3;

verus! {

pub const FROG_COUNT: usize = 3;

/// The actions asked for during one frame.
#[derive(Clone, Copy, Debug, Default, PartialEq, Eq, Structural)]
pub struct Input {
    pub zoom_in: bool,
    pub zoom_out: bool,
    pub toggle_stats: bool,
    pub sprint: bool,
    pub throw: bool,
    pub forward: bool,
    pub back: bool,
    pub right: bool,
    pub left: bool,
    pub jump: bool,
    pub leap: bool,
}

/// The player after the zoom, stats and sprint parts of `input`.
pub open spec fn with_flags(p: Player, input: Input, dt: int) -> Player {
    let a = if input.zoom_in { Player { fovy: zoomed(p.fovy as int, ZoomKind::In, dt) as i64, ..p } } else { p };
    let b = if input.zoom_out { Player { fovy: zoomed(a.fovy as int, ZoomKind::Out, dt) as i64, ..a } } else { a };
    Player { is_showing_stats: b.is_showing_stats != input.toggle_stats, is_sprinting: input.sprint, ..b }
}

/// The player after the movements of `input`, in order: forward, back,
/// right, left, jump, leap.
pub open spec fn with_moves(p: Player, input: Input, dt: int) -> Player {
    let a = if input.forward { p.accelerated(Direction::Front, dt) } else { p };
    let b = if input.back { a.accelerated(Direction::Back, dt) } else { a };
    let c = if input.right { b.accelerated(Direction::Right, dt) } else { b };
    let d = if input.left { c.accelerated(Direction::Left, dt) } else { c };
    let e = if input.jump { d.jumped() } else { d };
    if input.leap { e.leapt(dt) } else { e }
}

/// The player after `input`: movements only where the player may move.
pub open spec fn player_after_input(p: Player, input: Input, dt: int) -> Player {
    let f = with_flags(p, input, dt);
    if f.may_move() { with_moves(f, input, dt) } else { f }
}

fn set_flags(p: &mut Player, input: &Input, dt: u32)
    requires
        old(p).wf(),
    ensures
        *final(p) == with_flags(*old(p), *input, dt as int),
        final(p).wf(),
{
    if input.zoom_in {
        p.zoom(ZoomKind::In, dt);
    }
    if input.zoom_out {
        p.zoom(ZoomKind::Out, dt);
    }
    if input.toggle_stats {
        p.is_showing_stats = !p.is_showing_stats;
    }
    p.is_sprinting = input.sprint;
}

fn make_moves(p: &mut Player, input: &Input, dt: u32)
    requires
        old(p).wf(),
    ensures
        *final(p) == with_moves(*old(p), *input, dt as int),
        final(p).wf(),
{
    if input.forward {
        p.accel(Direction::Front, dt);
    }
    if input.back {
        p.accel(Direction::Back, dt);
    }
    if input.right {
        p.accel(Direction::Right, dt);
    }
    if input.left {
        p.accel(Direction::Left, dt);
    }
    if input.jump {
        p.jump();
    }
    if input.leap {
        p.super_leap(dt);
    }
}

/// Everything that lives in the world.
pub struct World {
    pub terrain: Terrain,
    pub player: Player,
    pub frogs: [Frog; FROG_COUNT],
    pub balls: BallQueue,
}

/// Two frogs' boxes overlap.
pub open spec fn frogs_meet(a: Frog, b: Frog) -> bool {
    boxes_meet(a.pos, a.spec_dim(), b.pos, b.spec_dim())
}

/// The game is won when the three frogs overlap pairwise and all stand
/// outside bounds.
pub open spec fn won(fs: Seq<Frog>) -> bool {
    &&& frogs_meet(fs[0], fs[1])
    &&& frogs_meet(fs[1], fs[2])
    &&& frogs_meet(fs[0], fs[2])
    &&& outside_bounds(fs[0].pos)
    &&& outside_bounds(fs[1].pos)
    &&& outside_bounds(fs[2].pos)
}

/// A frog kicked by the player where they overlap.
pub open spec fn kicked(f: Frog, p: Player) -> Frog {
    if boxes_meet(p.pos, p.spec_dim(), f.pos, f.spec_dim()) {
        Frog { vel: f.vel.add_spec(p.vel.div_spec(PUSH_SHARE as int)), ..f }
    } else {
        f
    }
}

/// A frog after a frame of its own physics.
pub open spec fn frog_moved(f: Frog, dt: int) -> Frog {
    Frog { vel: forces(f.pos, f.vel, dt), pos: moved(f.pos, forces(f.pos, f.vel, dt), dt), ..f }
}

/// A ball after a frame of its own physics.
pub open spec fn ball_moved(b: Ball, dt: int) -> Ball {
    Ball { vel: forces(b.pos, b.vel, dt), pos: moved(b.pos, forces(b.pos, b.vel, dt), dt) }
}

/// Ball `b` against the first `j` frogs in order: each it overlaps gets a
/// share of its velocity while the ball keeps a tenth. Also counts strikes.
pub open spec fn hit(b: Ball, fs: Seq<Frog>, j: nat) -> (Ball, Seq<Frog>, nat)
    decreases j,
{
    if j == 0 {
        (b, fs, 0)
    } else {
        let (b1, fs1, n) = hit(b, fs, (j - 1) as nat);
        let f = fs1[j - 1];
        if boxes_meet(b1.pos, b1.spec_dim(), f.pos, f.spec_dim()) {
            (
                Ball { vel: b1.vel.div_spec(STRIKE_KEEP as int), ..b1 },
                fs1.update(j - 1, Frog { vel: f.vel.add_spec(b1.vel.div_spec(STRIKE_SHARE as int)), ..f }),
                n + 1,
            )
        } else {
            (b1, fs1, n)
        }
    }
}

/// The first `k` balls in order, each striking the frogs and then moving:
/// the moved balls, the frogs after them, and the number of strikes.
pub open spec fn roll(bs: Seq<Ball>, fs: Seq<Frog>, k: nat, dt: int) -> (Seq<Ball>, Seq<Frog>, nat)
    decreases k,
{
    if k == 0 {
        (Seq::empty(), fs, 0)
    } else {
        let (done, fs1, n) = roll(bs, fs, (k - 1) as nat, dt);
        let (b, fs2, m) = hit(bs[k - 1], fs1, FROG_COUNT as nat);
        (done.push(ball_moved(b, dt)), fs2, n + m)
    }
}

pub open spec fn frogs_wf(fs: Seq<Frog>) -> bool {
    forall|i: int| 0 <= i < fs.len() ==> #[trigger] fs[i].wf()
}

pub open spec fn balls_wf(bs: Seq<Ball>) -> bool {
    forall|i: int| 0 <= i < bs.len() ==> #[trigger] bs[i].wf()
}

proof fn lemma_hit_wf(b: Ball, fs: Seq<Frog>, j: nat)
    requires
        b.wf(),
        frogs_wf(fs),
        j <= fs.len(),
    ensures
        hit(b, fs, j).0.wf(),
        frogs_wf(hit(b, fs, j).1),
        hit(b, fs, j).1.len() == fs.len(),
        hit(b, fs, j).2 <= j,
    decreases j,
{
    if j > 0 {
        lemma_hit_wf(b, fs, (j - 1) as nat);
        let (b1, fs1, n) = hit(b, fs, (j - 1) as nat);
        assert(fs1[j - 1].wf());
    }
}

proof fn lemma_roll_wf(bs: Seq<Ball>, fs: Seq<Frog>, k: nat, dt: int)
    requires
        balls_wf(bs),
        frogs_wf(fs),
        fs.len() == FROG_COUNT,
        k <= bs.len(),
        0 <= dt <= u32::MAX,
    ensures
        balls_wf(roll(bs, fs, k, dt).0),
        roll(bs, fs, k, dt).0.len() == k,
        frogs_wf(roll(bs, fs, k, dt).1),
        roll(bs, fs, k, dt).1.len() == FROG_COUNT,
        roll(bs, fs, k, dt).2 <= FROG_COUNT * k,
    decreases k,
{
    if k > 0 {
        lemma_roll_wf(bs, fs, (k - 1) as nat, dt);
        let (done, fs1, n) = roll(bs, fs, (k - 1) as nat, dt);
        assert(bs[k - 1].wf());
        lemma_hit_wf(bs[k - 1], fs1, FROG_COUNT as nat);
        let (b, fs2, m) = hit(bs[k - 1], fs1, FROG_COUNT as nat);
        let moved_b = ball_moved(b, dt);
        crate::mob::lemma_forces_moved_wf(b.pos, b.vel, dt);
        assert(moved_b.wf());
        assert(roll(bs, fs, k, dt).0 == done.push(moved_b));
        assert forall|i: int| 0 <= i < k implies #[trigger] roll(bs, fs, k, dt).0[i].wf() by {
            if i < k - 1 {
                assert(done[i].wf());
            }
        }
    }
}

/// The player after a frame of its own physics.
pub open spec fn player_moved(p: Player, dt: int) -> Player {
    Player { vel: forces(p.pos, p.vel, dt), pos: moved(p.pos, forces(p.pos, p.vel, dt), dt), ..p }
}

/// The player after a frame: moved, and victorious once the frogs as they
/// stood are herded together out of bounds.
pub open spec fn player_after(p: Player, fs: Seq<Frog>, dt: int) -> Player {
    Player { is_victorious: p.is_victorious || won(fs), ..player_moved(p, dt) }
}

/// Victory comes exactly when the frogs are herded together out of bounds,
/// and once won stays won.
pub proof fn lemma_victory(p: Player, fs: Seq<Frog>, dt: int)
    ensures
        !p.is_victorious ==> (player_after(p, fs, dt).is_victorious <==> won(fs)),
        p.is_victorious ==> player_after(p, fs, dt).is_victorious,
{
}

/// Each frog kicked by the player where they overlap, then moved.
pub open spec fn frogs_after_kicks(fs: Seq<Frog>, p: Player, dt: int) -> Seq<Frog> {
    Seq::new(fs.len(), |i: int| frog_moved(kicked(fs[i], p), dt))
}

impl World {
    pub open spec fn wf(&self) -> bool {
        &&& self.terrain.wf()
        &&& self.player.wf()
        &&& frogs_wf(self.frogs@)
        &&& balls_wf(queued(self.balls))
        &&& queued(self.balls).len() <= BALLS_MAX
    }

    /// The player at the origin, three frogs in the air nearby, no balls.
    pub fn new() -> (r: World)
        ensures
            r.wf(),
            r.player == Player::new_spec(),
            r.frogs@ == seq![
                Frog { pos: Vec3 { x: 4_000_000, y: 4_000_000, z: -4_000_000i64 }, vel: Vec3 { x: 0, y: 0, z: 0 }, color: Color::Violet },
                Frog { pos: Vec3 { x: 6_000_000, y: 4_000_000, z: 5_000_000 }, vel: Vec3 { x: 0, y: 0, z: 0 }, color: Color::Green },
                Frog { pos: Vec3 { x: -5_000_000i64, y: 4_000_000, z: 2_000_000 }, vel: Vec3 { x: 0, y: 0, z: 0 }, color: Color::Blue },
            ],
            queued(r.balls).len() == 0,
            r.terrain == (Terrain {
                wall_color: Color::White,
                grid_colors: (Color::White, Color::Gray),
                wall_pos: Vec3 { x: 0, y: 0, z: 0 },
                wall_dim: Vec3 { x: WALL_SIZE, y: WALL_SIZE, z: WALL_SIZE },
            }),
    {
        let frogs = [
            Frog::new(Vec3::new(4_000_000, 4_000_000, -4_000_000), Color::Violet),
            Frog::new(Vec3::new(6_000_000, 4_000_000, 5_000_000), Color::Green),
            Frog::new(Vec3::new(-5_000_000, 4_000_000, 2_000_000), Color::Blue),
        ];
        let r = World { terrain: Terrain::new(), player: Player::new(), frogs, balls: BallQueue::new() };
        assert(r.frogs@ =~= seq![frogs[0], frogs[1], frogs[2]]);
        r
    }

    /// Throws `ball`; past `BALLS_MAX` the oldest ball gives way.
    pub fn throw_ball(&mut self, ball: Ball)
        requires
            old(self).wf(),
            ball.wf(),
        ensures
            queued(final(self).balls) == enqueued(queued(old(self).balls), ball),
            final(self).player == old(self).player,
            final(self).frogs == old(self).frogs,
            final(self).terrain == old(self).terrain,
            final(self).wf(),
    {
        self.balls.push_overwrite(ball);
        assert(balls_wf(queued(self.balls)));
    }

    /// Answers one frame of input: zoom, stats, sprint and a throw always;
    /// movements only where the player may move. Returns whether a ball was
    /// thrown.
    pub fn handle_input(&mut self, input: &Input, dt: u32) -> (thrown: bool)
        requires
            old(self).wf(),
        ensures
            final(self).player == player_after_input(old(self).player, *input, dt as int),
            queued(final(self).balls) == if input.throw {
                enqueued(queued(old(self).balls), old(self).player.thrown())
            } else {
                queued(old(self).balls)
            },
            final(self).frogs == old(self).frogs,
            final(self).terrain == old(self).terrain,
            thrown == input.throw,
            final(self).wf(),
    {
        let ghost start = *self;
        set_flags(&mut self.player, input, dt);
        if input.throw {
            let ball = self.player.throw_ball();
            self.throw_ball(ball);
        }
        assert(self.player == with_flags(start.player, *input, dt as int));
        // Don't walk on the air, unless you deserve it...
        if self.player.can_move() {
            make_moves(&mut self.player, input, dt);
        }
        input.throw
    }

    /// The balls, oldest first.
    pub fn balls(&self) -> (r: Vec<Ball>)
        ensures
            r@ == queued(self.balls),
    {
        self.balls.to_vec()
    }

    /// One frame of the world, `dt` microseconds long: the player moves and
    /// may win, kicks the frogs it touches, the frogs move, each ball strikes
    /// the frogs it touches and moves, and the terrain reacts to the player.
    /// Returns the number of strikes.
    pub fn update(&mut self, dt: u32) -> (strikes: usize)
        requires
            old(self).wf(),
        ensures
            final(self).player == player_after(old(self).player, old(self).frogs@, dt as int),
            ({
                let kicked_frogs = frogs_after_kicks(old(self).frogs@, final(self).player, dt as int);
                let bs = queued(old(self).balls);
                let (balls, frogs, n) = roll(bs, kicked_frogs, bs.len(), dt as int);
                &&& queued(final(self).balls) == balls
                &&& final(self).frogs@ == frogs
                &&& strikes == n
            }),
            exists|s: Seq<bool>|
                s.len() == 6 && final(self).terrain == wall_after(
                    grid_after(old(self).terrain, final(self).player),
                    final(self).player,
                    dt as int,
                    s,
                ),
            final(self).wf(),
    {
        let ghost start = *self;
        self.player.update(dt);
        if self.game_is_won() {
            self.player.is_victorious = true;
        }
        let ghost p = self.player;
        assert(p == player_after(start.player, start.frogs@, dt as int));
        let ghost kicked_frogs = frogs_after_kicks(start.frogs@, p, dt as int);
        let mut i: usize = 0;
        while i < FROG_COUNT
            invariant
                i <= FROG_COUNT,
                self.player == p,
                p.wf(),
                self.terrain == start.terrain,
                self.balls == start.balls,
                self.frogs@.len() == FROG_COUNT,
                frogs_wf(self.frogs@),
                kicked_frogs == frogs_after_kicks(start.frogs@, p, dt as int),
                forall|j: int| 0 <= j < i ==> self.frogs@[j] == #[trigger] kicked_frogs[j],
                forall|j: int| i <= j < FROG_COUNT ==> self.frogs@[j] == start.frogs@[j],
            decreases FROG_COUNT - i,
        {
            let mut f = self.frogs[i];
            assert(f.wf());
            if intersects(&self.player, &f) {
                self.player.kick(&mut f);
            }
            f.update(dt);
            let ghost before = self.frogs@;
            self.frogs[i] = f;
            assert(frogs_wf(self.frogs@)) by {
                assert forall|j: int| 0 <= j < self.frogs@.len() implies #[trigger] self.frogs@[j].wf() by {
                    if j != i {
                        assert(self.frogs@[j] == before[j]);
                    }
                };
            };
            i = i + 1;
        }
        assert(self.frogs@ =~= kicked_frogs);
        let n = self.balls.len();
        let ghost bs = queued(self.balls);
        let mut k: usize = 0;
        let mut strikes: usize = 0;
        while k < n
            invariant
                k <= n,
                n == bs.len(),
                n <= BALLS_MAX,
                balls_wf(bs),
                frogs_wf(kicked_frogs),
                kicked_frogs.len() == FROG_COUNT,
                self.player == p,
                p.wf(),
                self.terrain == start.terrain,
                queued(self.balls) == bs.subrange(k as int, n as int) + roll(bs, kicked_frogs, k as nat, dt as int).0,
                self.frogs@ == roll(bs, kicked_frogs, k as nat, dt as int).1,
                strikes == roll(bs, kicked_frogs, k as nat, dt as int).2,
            decreases n - k,
        {
            proof {
                lemma_roll_wf(bs, kicked_frogs, k as nat, dt as int);
            }
            let ghost done = roll(bs, kicked_frogs, k as nat, dt as int).0;
            let ghost fs1 = self.frogs@;
            assert(queued(self.balls)[0] == bs[k as int]);
            if let Some(b) = self.balls.pop() {
                assert(queued(self.balls) =~= bs.subrange(k + 1, n as int) + done);
                let mut b = b;
                assert(b.wf());
                let mut j: usize = 0;
                let mut m: usize = 0;
                while j < FROG_COUNT
                    invariant
                        j <= FROG_COUNT,
                        k < n,
                        n == bs.len(),
                        b == hit(bs[k as int], fs1, j as nat).0,
                        self.frogs@ == hit(bs[k as int], fs1, j as nat).1,
                        m == hit(bs[k as int], fs1, j as nat).2,
                        bs[k as int].wf(),
                        frogs_wf(fs1),
                        fs1.len() == FROG_COUNT,
                        self.player == p,
                        self.terrain == start.terrain,
                        queued(self.balls) == bs.subrange(k + 1, n as int) + done,
                    decreases FROG_COUNT - j,
                {
                    proof {
                        lemma_hit_wf(bs[k as int], fs1, j as nat);
                    }
                    let mut f = self.frogs[j];
                    assert(f.wf());
                    if intersects(&b, &f) {
                        b.strike(&mut f);
                        self.frogs[j] = f;
                        m = m + 1;
                    }
                    assert(self.frogs@ =~= hit(bs[k as int], fs1, (j + 1) as nat).1);
                    j = j + 1;
                }
                proof {
                    lemma_hit_wf(bs[k as int], fs1, FROG_COUNT as nat);
                }
                b.update(dt);
                self.balls.push_overwrite(b);
                strikes = strikes + m;
                assert(queued(self.balls) =~= bs.subrange(k + 1, n as int) + roll(bs, kicked_frogs, (k + 1) as nat, dt as int).0);
            }
            k = k + 1;
        }
        proof {
            lemma_roll_wf(bs, kicked_frogs, n as nat, dt as int);
            assert(bs.subrange(n as int, n as int) + roll(bs, kicked_frogs, n as nat, dt as int).0
                =~= roll(bs, kicked_frogs, n as nat, dt as int).0);
        }
        self.terrain.update(&self.player, dt);
        strikes
    }

    /// Whether the frogs are herded together and all out of bounds.
    pub fn game_is_won(&self) -> (r: bool)
        requires
            self.wf(),
        ensures
            r == won(self.frogs@),
    {
        let fs = &self.frogs;
        assert(fs@[0].wf() && fs@[1].wf() && fs@[2].wf());
        intersects(&fs[0], &fs[1]) && intersects(&fs[1], &fs[2]) && intersects(&fs[0], &fs[2])
            && fs[0].is_outside_bounds() && fs[1].is_outside_bounds() && fs[2].is_outside_bounds()
    }
}

} // verus!
