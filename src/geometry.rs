//! Integer fixed-point plane geometry: angles measured in turn units, a
//! rational sine approximation, polar vectors, rotation and circles.
use vstd::prelude::*;
use vstd::arithmetic::div_mod::*;

verus! {

/// One full turn, in angle units.
pub const TURN: u32 = 65536;

/// Half a turn, in angle units.
pub const HALF_TURN: u32 = 32768;

/// A quarter turn, in angle units.
pub const QUARTER_TURN: u32 = 16384;

/// The fixed-point value that stands for 1.0 in sines and cosines.
pub const TRIG_ONE: i64 = 16384;

/// Sub-pixel units in one pixel.
pub const PIXEL: i64 = 16;

/// Every coordinate lies in `[-WORLD_LIMIT, WORLD_LIMIT]`.
pub const WORLD_LIMIT: i64 = 1099511627776;

/// Bound on speeds, radii and other lengths.
pub const MAX_LENGTH: i64 = 1073741824;

/// The Bhaskara approximation of `sin` over the first half turn, scaled by
/// `TRIG_ONE`: `16 a (h - a) / (5 h^2 - 4 a (h - a))` with `h` half a turn.
pub open spec fn half_wave(a: int) -> int {
    let h = HALF_TURN as int;
    let p = a * (h - a);
    (TRIG_ONE * 16) * p / (5 * (h * h) - 4 * p)
}

/// Fixed-point sine of an angle given in turn units.
pub open spec fn sine_of(a: int) -> int {
    let r = a % (TURN as int);
    if r < HALF_TURN as int {
        half_wave(r)
    } else {
        -half_wave(r - HALF_TURN)
    }
}

/// Fixed-point cosine of an angle given in turn units.
pub open spec fn cosine_of(a: int) -> int {
    sine_of(a + QUARTER_TURN)
}

/// Division that rounds toward zero, as Rust's integer division does.
pub open spec fn trunc_div(n: int, d: int) -> int {
    if n >= 0 {
        n / d
    } else {
        -((-n) / d)
    }
}

/// `len * t` scaled down by `TRIG_ONE`, rounding toward zero.
pub open spec fn scale_by(len: int, t: int) -> int {
    trunc_div(len * t, TRIG_ONE as int)
}

/// The angle `a + d` reduced to `[0, TURN)`.
pub open spec fn turn_add(a: int, d: int) -> int {
    (a + d) % (TURN as int)
}

/// `v` clamped to the world's coordinate range.
pub open spec fn clamp_world(v: int) -> int {
    if v < -WORLD_LIMIT {
        -WORLD_LIMIT as int
    } else if v > WORLD_LIMIT {
        WORLD_LIMIT as int
    } else {
        v
    }
}

proof fn lemma_half_wave_bounds(a: int)
    requires
        0 <= a <= HALF_TURN,
    ensures
        0 <= half_wave(a) <= TRIG_ONE,
        0 <= a * (HALF_TURN - a) <= 268435456,
{
    let h = HALF_TURN as int;
    let p = a * (h - a);
    assert(0 <= p && 4 * p <= h * h) by (nonlinear_arith)
        requires
            0 <= a <= h,
            p == a * (h - a),
    ;
    let d = 5 * (h * h) - 4 * p;
    let n = (TRIG_ONE * 16) * p;
    assert(h * h == 1073741824);
    assert(d > 0);
    assert(n <= TRIG_ONE * d) by (nonlinear_arith)
        requires
            n == 262144 * p,
            d == 5 * 1073741824 - 4 * p,
            4 * p <= 1073741824,
            TRIG_ONE == 16384,
    ;
    lemma_div_pos_is_pos(n, d);
    lemma_div_is_ordered(n, TRIG_ONE * d, d);
    lemma_div_multiples_vanish(TRIG_ONE as int, d);
}

/// `half_wave` for an angle within the first half turn.
fn half_wave_exec(a: i64) -> (r: i64)
    requires
        0 <= a <= HALF_TURN,
    ensures
        r == half_wave(a as int),
        0 <= r <= TRIG_ONE,
{
    proof {
        lemma_half_wave_bounds(a as int);
    }
    let h: i64 = HALF_TURN as i64;
    let p: i64 = a * (h - a);
    assert(0 <= p <= 268435456);
    let d: i64 = 5 * (h * h) - 4 * p;
    assert(0 <= 262144 * p <= 262144 * 268435456) by (nonlinear_arith)
        requires 0 <= p <= 268435456;
    (TRIG_ONE * 16) * p / d
}

/// Fixed-point sine of `a` turn units.
pub fn sine(a: u32) -> (r: i64)
    ensures
        r == sine_of(a as int),
        -TRIG_ONE <= r <= TRIG_ONE,
{
    let t: u32 = a % TURN;
    if t < HALF_TURN {
        half_wave_exec(t as i64)
    } else {
        -half_wave_exec((t - HALF_TURN) as i64)
    }
}

/// Fixed-point cosine of `a` turn units.
pub fn cosine(a: u32) -> (r: i64)
    ensures
        r == cosine_of(a as int),
        -TRIG_ONE <= r <= TRIG_ONE,
{
    let t: u32 = a % TURN;
    proof {
        assert(turn_add(a as int, QUARTER_TURN as int) == turn_add(t as int, QUARTER_TURN as int)) by {
            lemma_add_mod_noop(a as int, QUARTER_TURN as int, TURN as int);
            lemma_add_mod_noop(t as int, QUARTER_TURN as int, TURN as int);
            lemma_mod_twice(a as int, TURN as int);
        }
        lemma_mod_twice(a as int + QUARTER_TURN, TURN as int);
        lemma_mod_twice(t as int + QUARTER_TURN, TURN as int);
    }
    sine(t + QUARTER_TURN)
}


/// The angle `a + d` in `[0, TURN)`, for an angle `a` and a signed offset `d`.
pub fn add_angle(a: u32, d: i64) -> (r: u32)
    requires
        d > i64::MIN,
    ensures
        r == turn_add(a as int, d as int),
        r < TURN,
{
    let t: u64 = TURN as u64;
    if d >= 0 {
        let m: u64 = (d as u64) % t;
        proof {
            lemma_add_mod_noop_right(a as int, d as int, TURN as int);
        }
        ((a as u64 + m) % t) as u32
    } else {
        let m: u64 = ((-d) as u64) % t;
        proof {
            let e = -(d as int);
            lemma_sub_mod_noop_right(a as int, e, TURN as int);
            lemma_mod_add_multiples_vanish(a as int - m as int, TURN as int);
        }
        ((a as u64 + t - m) % t) as u32
    }
}

/// A point or a displacement in sub-pixel units.
#[derive(Clone, Copy, Debug, PartialEq, Eq, Structural)]
pub struct Vec2i {
    pub x: i64,
    pub y: i64,
}

/// Both coordinates lie within the world.
pub open spec fn in_world(v: Vec2i) -> bool {
    -WORLD_LIMIT <= v.x <= WORLD_LIMIT && -WORLD_LIMIT <= v.y <= WORLD_LIMIT
}

/// Both coordinates are at most `2 * WORLD_LIMIT` in magnitude: the
/// difference of two points of the world.
pub open spec fn is_span(v: Vec2i) -> bool {
    -2 * WORLD_LIMIT <= v.x <= 2 * WORLD_LIMIT && -2 * WORLD_LIMIT <= v.y <= 2 * WORLD_LIMIT
}

/// A length that fits the bound on speeds and radii.
pub open spec fn is_length(len: int) -> bool {
    -MAX_LENGTH <= len <= MAX_LENGTH
}

fn div_trunc(n: i64, d: i64) -> (r: i64)
    requires
        d > 0,
        n > i64::MIN,
    ensures
        r == trunc_div(n as int, d as int),
{
    if n >= 0 {
        n / d
    } else {
        -((-n) / d)
    }
}

proof fn lemma_scale_bound(len: int, t: int)
    requires
        -TRIG_ONE <= t <= TRIG_ONE,
    ensures
        -len <= scale_by(len, t) <= len || len <= scale_by(len, t) <= -len,
{
    let one = TRIG_ONE as int;
    let n = len * t;
    let a = if len >= 0 { len } else { -len };
    assert(-(a * one) <= n <= a * one) by (nonlinear_arith)
        requires
            -one <= t <= one,
            n == len * t,
            a == if len >= 0 { len } else { -len },
    ;
    lemma_div_multiples_vanish(a, one);
    if n >= 0 {
        lemma_div_pos_is_pos(n, one);
        lemma_div_is_ordered(n, a * one, one);
    } else {
        lemma_div_pos_is_pos(-n, one);
        lemma_div_is_ordered(-n, a * one, one);
    }
}

/// The displacement of length `len` in the direction `angle`.
pub open spec fn polar_of(len: int, angle: int) -> Vec2i {
    Vec2i { x: scale_by(len, cosine_of(angle)) as i64, y: scale_by(len, sine_of(angle)) as i64 }
}

/// The displacement of length `len` in the direction `angle`.
pub fn polar(len: i64, angle: u32) -> (r: Vec2i)
    requires
        -WORLD_LIMIT <= len <= WORLD_LIMIT,
    ensures
        r == polar_of(len as int, angle as int),
        -WORLD_LIMIT <= r.x <= WORLD_LIMIT,
        -WORLD_LIMIT <= r.y <= WORLD_LIMIT,
{
    let c = cosine(angle);
    let s = sine(angle);
    assert(-WORLD_LIMIT * TRIG_ONE <= len * c <= WORLD_LIMIT * TRIG_ONE) by (nonlinear_arith)
        requires
            -WORLD_LIMIT <= len <= WORLD_LIMIT,
            -TRIG_ONE <= c <= TRIG_ONE,
    ;
    assert(-WORLD_LIMIT * TRIG_ONE <= len * s <= WORLD_LIMIT * TRIG_ONE) by (nonlinear_arith)
        requires
            -WORLD_LIMIT <= len <= WORLD_LIMIT,
            -TRIG_ONE <= s <= TRIG_ONE,
    ;
    proof {
        lemma_scale_bound(len as int, c as int);
        lemma_scale_bound(len as int, s as int);
    }
    Vec2i { x: div_trunc(len * c, TRIG_ONE), y: div_trunc(len * s, TRIG_ONE) }
}

/// The point `p + d`, each coordinate clamped to the world.
pub open spec fn shifted(p: Vec2i, d: Vec2i) -> Vec2i {
    Vec2i { x: clamp_world(p.x + d.x) as i64, y: clamp_world(p.y + d.y) as i64 }
}

fn clamp_coord(v: i64) -> (r: i64)
    ensures
        r == clamp_world(v as int),
{
    if v < -WORLD_LIMIT {
        -WORLD_LIMIT
    } else if v > WORLD_LIMIT {
        WORLD_LIMIT
    } else {
        v
    }
}

/// Moves the point `p` by `d`, staying within the world.
pub fn shift(p: Vec2i, d: Vec2i) -> (r: Vec2i)
    requires
        is_span(p),
        is_span(d),
    ensures
        r == shifted(p, d),
        in_world(r),
{
    Vec2i { x: clamp_coord(p.x + d.x), y: clamp_coord(p.y + d.y) }
}

/// The point `p` turned by `angle` about `origin`, clamped to the world.
pub open spec fn rotated_about(p: Vec2i, origin: Vec2i, angle: int) -> Vec2i {
    let dx = p.x - origin.x;
    let dy = p.y - origin.y;
    let c = cosine_of(angle);
    let s = sine_of(angle);
    Vec2i {
        x: clamp_world(origin.x + trunc_div(dx * c - dy * s, TRIG_ONE as int)) as i64,
        y: clamp_world(origin.y + trunc_div(dx * s + dy * c, TRIG_ONE as int)) as i64,
    }
}

/// Turns the point `p` by `angle` about `origin`.
pub fn rotate_about(p: Vec2i, origin: Vec2i, angle: u32) -> (r: Vec2i)
    requires
        in_world(p),
        in_world(origin),
    ensures
        r == rotated_about(p, origin, angle as int),
        in_world(r),
{
    let dx = p.x - origin.x;
    let dy = p.y - origin.y;
    let c = cosine(angle);
    let s = sine(angle);
    let lim: i64 = 2 * WORLD_LIMIT;
    assert(-lim * TRIG_ONE <= dx * c <= lim * TRIG_ONE) by (nonlinear_arith)
        requires -lim <= dx <= lim, -TRIG_ONE <= c <= TRIG_ONE;
    assert(-lim * TRIG_ONE <= dy * s <= lim * TRIG_ONE) by (nonlinear_arith)
        requires -lim <= dy <= lim, -TRIG_ONE <= s <= TRIG_ONE;
    assert(-lim * TRIG_ONE <= dx * s <= lim * TRIG_ONE) by (nonlinear_arith)
        requires -lim <= dx <= lim, -TRIG_ONE <= s <= TRIG_ONE;
    assert(-lim * TRIG_ONE <= dy * c <= lim * TRIG_ONE) by (nonlinear_arith)
        requires -lim <= dy <= lim, -TRIG_ONE <= c <= TRIG_ONE;
    let nx = div_trunc(dx * c - dy * s, TRIG_ONE);
    let ny = div_trunc(dx * s + dy * c, TRIG_ONE);
    proof {
        lemma_scale_bound(2 * lim, TRIG_ONE as int);
        let a = dx * c - dy * s;
        let b = dx * s + dy * c;
        if a >= 0 {
            lemma_div_is_ordered(a, 2 * lim * TRIG_ONE, TRIG_ONE as int);
            lemma_div_pos_is_pos(a, TRIG_ONE as int);
        } else {
            lemma_div_is_ordered(-a, 2 * lim * TRIG_ONE, TRIG_ONE as int);
            lemma_div_pos_is_pos(-a, TRIG_ONE as int);
        }
        if b >= 0 {
            lemma_div_is_ordered(b, 2 * lim * TRIG_ONE, TRIG_ONE as int);
            lemma_div_pos_is_pos(b, TRIG_ONE as int);
        } else {
            lemma_div_is_ordered(-b, 2 * lim * TRIG_ONE, TRIG_ONE as int);
            lemma_div_pos_is_pos(-b, TRIG_ONE as int);
        }
        lemma_div_multiples_vanish(2 * lim, TRIG_ONE as int);
    }
    Vec2i { x: clamp_coord(origin.x + nx), y: clamp_coord(origin.y + ny) }
}


/// Which side of the direction `angle` the vector `v` lies on: positive when
/// `v` is counter-clockwise of it, negative when clockwise (the cross product).
pub open spec fn side_of(angle: int, v: Vec2i) -> int {
    cosine_of(angle) * v.y - sine_of(angle) * v.x
}

fn side(angle: u32, v: Vec2i) -> (r: i64)
    requires
        is_span(v),
    ensures
        r == side_of(angle as int, v),
{
    let c = cosine(angle);
    let s = sine(angle);
    let lim: i64 = 2 * WORLD_LIMIT;
    assert(-lim * TRIG_ONE <= c * v.y <= lim * TRIG_ONE) by (nonlinear_arith)
        requires -lim <= v.y <= lim, -TRIG_ONE <= c <= TRIG_ONE;
    assert(-lim * TRIG_ONE <= s * v.x <= lim * TRIG_ONE) by (nonlinear_arith)
        requires -lim <= v.x <= lim, -TRIG_ONE <= s <= TRIG_ONE;
    c * v.y - s * v.x
}

proof fn lemma_cardinal_values()
    ensures
        sine_of(0) == 0,
        sine_of(QUARTER_TURN as int) == TRIG_ONE,
        sine_of(HALF_TURN as int) == 0,
        sine_of(3 * QUARTER_TURN) == -TRIG_ONE,
        sine_of(TURN as int) == 0,
        cosine_of(0) == TRIG_ONE,
        cosine_of(QUARTER_TURN as int) == 0,
        cosine_of(HALF_TURN as int) == -TRIG_ONE,
        cosine_of(3 * QUARTER_TURN) == 0,
        cosine_of(TURN as int) == TRIG_ONE,
{
    assert(half_wave(0) == 0);
    let q = QUARTER_TURN as int;
    let h = HALF_TURN as int;
    assert(q * (h - q) == 268435456);
    assert(5 * (h * h) - 4 * 268435456 == 4294967296);
    assert((TRIG_ONE * 16) * 268435456 == 4294967296 * 16384);
    lemma_div_multiples_vanish(16384, 4294967296);
    assert(half_wave(q) == TRIG_ONE);
    assert((TURN + QUARTER_TURN) % (TURN as int) == QUARTER_TURN);
    assert((TURN as int) % (TURN as int) == 0);
}

/// The quarter turn that holds the direction of a non-zero `v`.
pub open spec fn quadrant_base(v: Vec2i) -> int {
    if v.x > 0 && v.y >= 0 {
        0
    } else if v.x <= 0 && v.y > 0 {
        QUARTER_TURN as int
    } else if v.x < 0 && v.y <= 0 {
        HALF_TURN as int
    } else {
        3 * QUARTER_TURN
    }
}

/// Bisection over `[lo, hi]` for the angle where `v` passes from the
/// counter-clockwise side to the clockwise side.
pub open spec fn bisect(lo: int, hi: int, v: Vec2i) -> int
    decreases hi - lo,
{
    if hi - lo <= 1 {
        lo
    } else {
        let mid = lo + (hi - lo) / 2;
        if side_of(mid, v) >= 0 {
            bisect(mid, hi, v)
        } else {
            bisect(lo, mid, v)
        }
    }
}

/// The direction of `v` as an angle; 0 for the zero vector.
pub open spec fn direction_of(v: Vec2i) -> int {
    if v == (Vec2i { x: 0, y: 0 }) {
        0
    } else {
        bisect(quadrant_base(v), quadrant_base(v) + QUARTER_TURN, v)
    }
}

proof fn lemma_bisect_range(lo: int, hi: int, v: Vec2i)
    requires
        lo < hi,
    ensures
        lo <= bisect(lo, hi, v) < hi,
    decreases hi - lo,
{
    if hi - lo > 1 {
        let mid = lo + (hi - lo) / 2;
        if side_of(mid, v) >= 0 {
            lemma_bisect_range(mid, hi, v);
        } else {
            lemma_bisect_range(lo, mid, v);
        }
    }
}

/// A direction is an angle of one turn.
pub proof fn lemma_direction_range(v: Vec2i)
    ensures
        0 <= direction_of(v) < TURN,
{
    if v != (Vec2i { x: 0, y: 0 }) {
        lemma_bisect_range(quadrant_base(v), quadrant_base(v) + QUARTER_TURN, v);
    }
}

/// The direction of `v`, as an angle: the last angle unit at which `v` is
/// still on the counter-clockwise side (or straight ahead), the next unit
/// having it clockwise. The zero vector has direction 0.
pub fn angle_toward(v: Vec2i) -> (r: u32)
    requires
        is_span(v),
    ensures
        r == direction_of(v),
        r < TURN,
        v != (Vec2i { x: 0, y: 0 }) ==> side_of(r as int, v) >= 0 && side_of(r + 1, v) < 0,
{
    if v.x == 0 && v.y == 0 {
        return 0;
    }
    proof {
        lemma_cardinal_values();
    }
    let base: u32 = if v.x > 0 && v.y >= 0 {
        0
    } else if v.x <= 0 && v.y > 0 {
        QUARTER_TURN
    } else if v.x < 0 && v.y <= 0 {
        HALF_TURN
    } else {
        3 * QUARTER_TURN
    };
    let mut lo: u32 = base;
    let mut hi: u32 = base + QUARTER_TURN;
    while hi - lo > 1
        invariant
            base == quadrant_base(v),
            v != (Vec2i { x: 0, y: 0 }),
            base <= lo < hi <= base + QUARTER_TURN,
            base + QUARTER_TURN <= TURN,
            is_span(v),
            side_of(lo as int, v) >= 0,
            side_of(hi as int, v) < 0,
            bisect(lo as int, hi as int, v) == direction_of(v),
        decreases hi - lo,
    {
        let mid: u32 = lo + (hi - lo) / 2;
        if side(mid, v) >= 0 {
            lo = mid;
        } else {
            hi = mid;
        }
    }
    lo
}

/// The heading `h` turned toward `target` by at most `step`, along the
/// shorter arc, never past `target`.
pub open spec fn steered(h: int, target: int, step: int) -> int {
    let diff = (target - h) % (TURN as int);
    if diff <= HALF_TURN {
        turn_add(h, if step < diff { step } else { diff })
    } else {
        turn_add(h, -(if step < TURN - diff { step } else { TURN - diff }))
    }
}

/// Turns the heading `h` toward `target` by at most `step` along the shorter arc.
pub fn steer(h: u32, target: u32, step: u32) -> (r: u32)
    requires
        h < TURN,
        target < TURN,
    ensures
        r == steered(h as int, target as int, step as int),
        r < TURN,
{
    let diff: u32 = if target >= h { target - h } else { TURN - h + target };
    assert(diff == (target - h) % (TURN as int)) by {
        if target < h {
            lemma_mod_add_multiples_vanish(target - h, TURN as int);
        }
    }
    if diff <= HALF_TURN {
        let t: u32 = if step < diff { step } else { diff };
        add_angle(h, t as i64)
    } else {
        let t: u32 = if step < TURN - diff { step } else { TURN - diff };
        add_angle(h, -(t as i64))
    }
}

/// The angle between headings `a` and `b` along the shorter arc.
pub open spec fn arc_gap(a: int, b: int) -> int {
    let d = (b - a) % (TURN as int);
    if d <= HALF_TURN {
        d
    } else {
        TURN - d
    }
}

/// Steering by a positive step brings a heading strictly closer to its
/// target, by the step or all the way.
pub proof fn lemma_steer_approaches(h: int, target: int, step: int)
    requires
        0 <= h < TURN,
        0 <= target < TURN,
        step > 0,
        h != target,
    ensures
        arc_gap(steered(h, target, step), target) == if step < arc_gap(h, target) {
            arc_gap(h, target) - step
        } else {
            0
        },
        arc_gap(steered(h, target, step), target) < arc_gap(h, target),
{
    let t = TURN as int;
    let diff = (target - h) % t;
    if target >= h {
        lemma_small_mod((target - h) as nat, t as nat);
    } else {
        lemma_mod_add_multiples_vanish(target - h, t);
        lemma_small_mod((target - h + t) as nat, t as nat);
    }
    assert(0 < diff < t);
    let n = steered(h, target, step);
    if diff <= HALF_TURN {
        let m = if step < diff { step } else { diff };
        // n = (h + m) % t, and target - n = diff - m modulo a turn
        if h + m < t {
            lemma_small_mod((h + m) as nat, t as nat);
        } else {
            lemma_mod_sub_multiples_vanish(h + m, t);
            lemma_small_mod((h + m - t) as nat, t as nat);
        }
        assert(n == h + m || n == h + m - t);
        let d2 = diff - m;
        assert((target - n) % t == d2) by {
            if target >= h {
                if n == h + m {
                    lemma_small_mod(d2 as nat, t as nat);
                } else {
                    lemma_small_mod(d2 as nat, t as nat);
                }
            } else {
                if n == h + m {
                    lemma_mod_add_multiples_vanish(target - n, t);
                    lemma_small_mod(d2 as nat, t as nat);
                } else {
                    lemma_small_mod(d2 as nat, t as nat);
                }
            }
        }
    } else {
        let m = if step < t - diff { step } else { t - diff };
        if h - m >= 0 {
            lemma_small_mod((h - m) as nat, t as nat);
        } else {
            lemma_mod_add_multiples_vanish(h - m, t);
            lemma_small_mod((h - m + t) as nat, t as nat);
        }
        assert(n == h - m || n == h - m + t);
        let d2 = diff + m;
        assert((target - n) % t == d2 % t) by {
            if target >= h {
                if n == h - m {
                    assert(target - n == d2);
                } else {
                    lemma_mod_sub_multiples_vanish(d2, t);
                    assert(target - n == -t + d2);
                }
            } else {
                if n == h - m {
                    lemma_mod_add_multiples_vanish(target - n, t);
                    assert(target - n + t == d2);
                } else {
                    assert(target - n == d2);
                }
            }
        }
        if d2 < t {
            lemma_small_mod(d2 as nat, t as nat);
        } else {
            assert(d2 == t);
            lemma_mod_self_0(t);
        }
    }
}

/// An axis-aligned rectangle, edges included.
#[derive(Clone, Copy, Debug, PartialEq, Eq, Structural)]
pub struct Rect {
    pub min: Vec2i,
    pub max: Vec2i,
}

/// `p` lies in `r`, edges included.
pub open spec fn rect_contains(r: Rect, p: Vec2i) -> bool {
    r.min.x <= p.x <= r.max.x && r.min.y <= p.y <= r.max.y
}

impl Rect {
    /// Whether `p` lies in the rectangle, edges included.
    pub fn contains(&self, p: Vec2i) -> (r: bool)
        ensures
            r == rect_contains(*self, p),
    {
        self.min.x <= p.x && p.x <= self.max.x && self.min.y <= p.y && p.y <= self.max.y
    }
}

/// A circle: a collider placed at a point.
#[derive(Clone, Copy, Debug, PartialEq, Eq, Structural)]
pub struct Circle {
    pub pos: Vec2i,
    pub radius: i64,
}

/// The circles overlap: the distance between the centres is below the sum
/// of the radii.
pub open spec fn circles_overlap(a: Circle, b: Circle) -> bool {
    let dx = a.pos.x - b.pos.x;
    let dy = a.pos.y - b.pos.y;
    let reach = a.radius + b.radius;
    reach > 0 && dx * dx + dy * dy < reach * reach
}

impl Circle {
    /// A circle of the given radius centred at `pos`.
    pub fn new(radius: i64, pos: Vec2i) -> (r: Circle)
        ensures
            r == (Circle { pos, radius }),
    {
        Circle { pos, radius }
    }

    /// Whether the two circles overlap.
    pub fn hits(&self, other: Circle) -> (r: bool)
        requires
            in_world(self.pos),
            in_world(other.pos),
            0 <= self.radius <= MAX_LENGTH,
            0 <= other.radius <= MAX_LENGTH,
        ensures
            r == circles_overlap(*self, other),
    {
        let dx: i128 = self.pos.x as i128 - other.pos.x as i128;
        let dy: i128 = self.pos.y as i128 - other.pos.y as i128;
        let reach: i128 = self.radius as i128 + other.radius as i128;
        let lim: i128 = 2 * WORLD_LIMIT as i128;
        assert(0 <= dx * dx <= lim * lim) by (nonlinear_arith) requires -lim <= dx <= lim;
        assert(0 <= dy * dy <= lim * lim) by (nonlinear_arith) requires -lim <= dy <= lim;
        assert(0 <= reach * reach <= lim * lim) by (nonlinear_arith) requires 0 <= reach <= lim;
        assert(lim == 2199023255552);
        assert(lim * lim == 4835703278458516698824704) by (nonlinear_arith) requires lim == 2199023255552;
        reach > 0 && dx * dx + dy * dy < reach * reach
    }
}

} // verus!
