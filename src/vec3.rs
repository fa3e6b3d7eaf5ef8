use vstd::prelude::*;

verus! {

/// Largest magnitude of any coordinate; results beyond it are held at it.
pub const LIMIT: i64 = 1_000_000_000_000_000;

/// Micrometres in a metre, and microseconds in a second.
pub const UNIT: i64 = 1_000_000;

/// A value held within `[-LIMIT, LIMIT]`.
pub open spec fn sat(v: int) -> int {
    if v > LIMIT as int {
        LIMIT as int
    } else if v < -(LIMIT as int) {
        -(LIMIT as int)
    } else {
        v
    }
}

/// Division that rounds toward zero, as integer division in Rust does.
pub open spec fn div_trunc(a: int, b: int) -> int
    recommends
        b > 0,
{
    if a >= 0 {
        a / b
    } else {
        -((-a) / b)
    }
}

/// A point or vector in three dimensions (forward, up, right).
#[derive(Clone, Copy, Debug, PartialEq, Eq, Structural)]
pub struct Vec3 {
    pub x: i64,
    pub y: i64,
    pub z: i64,
}

pub open spec fn in_range(v: int) -> bool {
    -(LIMIT as int) <= v <= LIMIT as int
}

impl Vec3 {
    pub open spec fn wf(&self) -> bool {
        in_range(self.x as int) && in_range(self.y as int) && in_range(self.z as int)
    }

    pub fn new(x: i64, y: i64, z: i64) -> (r: Vec3)
        ensures
            r == (Vec3 { x, y, z }),
    {
        Vec3 { x, y, z }
    }

    pub fn zero() -> (r: Vec3)
        ensures
            r == (Vec3 { x: 0, y: 0, z: 0 }),
            r.wf(),
    {
        Vec3 { x: 0, y: 0, z: 0 }
    }

    pub fn splat(v: i64) -> (r: Vec3)
        ensures
            r == (Vec3 { x: v, y: v, z: v }),
    {
        Vec3 { x: v, y: v, z: v }
    }

    /// Componentwise sum, held within the coordinate range.
    pub open spec fn add_spec(self, o: Vec3) -> Vec3 {
        Vec3 {
            x: sat(self.x + o.x) as i64,
            y: sat(self.y + o.y) as i64,
            z: sat(self.z + o.z) as i64,
        }
    }

    /// Each component divided by `d`, rounding toward zero.
    pub open spec fn div_spec(self, d: int) -> Vec3 {
        Vec3 {
            x: div_trunc(self.x as int, d) as i64,
            y: div_trunc(self.y as int, d) as i64,
            z: div_trunc(self.z as int, d) as i64,
        }
    }

    pub fn add(&self, o: &Vec3) -> (r: Vec3)
        requires
            self.wf(),
            o.wf(),
        ensures
            r == self.add_spec(*o),
            r.wf(),
    {
        Vec3 { x: sat_add(self.x, o.x), y: sat_add(self.y, o.y), z: sat_add(self.z, o.z) }
    }

    pub fn div(&self, d: i64) -> (r: Vec3)
        requires
            self.wf(),
            d > 0,
        ensures
            r == self.div_spec(d as int),
            r.wf(),
    {
        Vec3 { x: div_toward_zero(self.x, d), y: div_toward_zero(self.y, d), z: div_toward_zero(self.z, d) }
    }
}

/// Sum of two in-range values, held within the range.
pub fn sat_add(a: i64, b: i64) -> (r: i64)
    requires
        in_range(a as int),
        in_range(b as int),
    ensures
        r == sat(a + b),
{
    clamp_wide((a as i128) + (b as i128))
}

/// Holds a wide value within the coordinate range.
pub fn clamp_wide(v: i128) -> (r: i64)
    ensures
        r == sat(v as int),
        in_range(r as int),
{
    if v > LIMIT as i128 {
        LIMIT
    } else if v < -(LIMIT as i128) {
        -LIMIT
    } else {
        v as i64
    }
}

/// `a / d` rounding toward zero.
pub fn div_toward_zero(a: i64, d: i64) -> (r: i64)
    requires
        in_range(a as int),
        d > 0,
    ensures
        r == div_trunc(a as int, d as int),
        in_range(r as int),
{
    if a >= 0 {
        a / d
    } else {
        -((-a) / d)
    }
}

/// `a * m / d` computed without overflow, rounding toward zero and held
/// within the coordinate range.
pub fn scale_wide(a: i64, m: i64, d: i64) -> (r: i64)
    requires
        in_range(a as int),
        0 <= m <= 100_000_000_000_000,
        d > 0,
    ensures
        r == sat(div_trunc(a * m, d as int)),
        in_range(r as int),
{
    assert(-100_000_000_000_000_000_000_000_000_000 <= a * m <= 100_000_000_000_000_000_000_000_000_000) by (nonlinear_arith)
        requires
            in_range(a as int),
            0 <= m <= 100_000_000_000_000,
    ;
    let p: i128 = (a as i128) * (m as i128);
    let q: i128 = if p >= 0 {
        p / (d as i128)
    } else {
        -((-p) / (d as i128))
    };
    clamp_wide(q)
}

/// `r` is the square root of `n` rounded down.
pub open spec fn is_floor_sqrt(n: int, r: int) -> bool {
    0 <= r && r * r <= n < (r + 1) * (r + 1)
}

/// The square root of `n` rounded down.
pub open spec fn floor_sqrt(n: int) -> int {
    choose|r: int| is_floor_sqrt(n, r)
}

/// A number has one square root rounded down.
pub proof fn lemma_floor_sqrt_unique(n: int, a: int, b: int)
    requires
        is_floor_sqrt(n, a),
        is_floor_sqrt(n, b),
    ensures
        a == b,
{
    if a < b {
        assert((a + 1) * (a + 1) <= b * b) by (nonlinear_arith)
            requires
                0 <= a < b,
        ;
    } else if b < a {
        assert((b + 1) * (b + 1) <= a * a) by (nonlinear_arith)
            requires
                0 <= b < a,
        ;
    }
}

/// Square root rounded down, by bisection.
pub fn isqrt(n: u64) -> (r: u64)
    requires
        n <= 4_000_000_000_000_000,
    ensures
        r == floor_sqrt(n as int),
        is_floor_sqrt(n as int, r as int),
{
    let mut lo: u64 = 0;
    let mut hi: u64 = 2_000_000_001;
    assert(hi * hi > n) by (nonlinear_arith)
        requires
            hi == 2_000_000_001,
            n <= 4_000_000_000_000_000,
    ;
    while lo + 1 < hi
        invariant
            lo < hi <= 2_000_000_001,
            lo * lo <= n,
            n < hi * hi,
        decreases hi - lo,
    {
        let mid: u64 = lo + (hi - lo) / 2;
        assert(mid * mid <= 2_000_000_001 * 2_000_000_001) by (nonlinear_arith)
            requires
                mid < 2_000_000_001,
        ;
        if mid * mid <= n {
            lo = mid;
        } else {
            hi = mid;
        }
    }
    proof {
        assert(hi == lo + 1);
        let w = choose|r: int| is_floor_sqrt(n as int, r);
        assert(is_floor_sqrt(n as int, lo as int));
        lemma_floor_sqrt_unique(n as int, w, lo as int);
    }
    lo
}

} // verus!
