//! Closed-form projectile intercept against a moving target.
//!
//! For a shooter, a target position and velocity and a projectile speed, the
//! intercept time solves `|target + vel * t - shooter|^2 = (speed * t)^2`,
//! a quadratic in `t`; the solver keeps the arithmetic exact by working on
//! whole world units and returning the chosen root as a fraction. A negative
//! discriminant or a negative root means no valid intercept exists and the
//! throw is skipped.

use vstd::prelude::*;
use crate::grid::{WorldVec2, floor_div, floor_div_i128, lemma_floor_div_bounds, WORLD_BOUND};

verus! {

/// Bound on the coordinates, velocities and speeds the solver accepts.
pub const INTERCEPT_BOUND: i64 = 0x100000;

/// `s` is the integer square root of `n`, rounded down.
pub open spec fn is_isqrt(s: int, n: int) -> bool {
    0 <= s && s * s <= n && n < (s + 1) * (s + 1)
}

/// The quadratic's leading coefficient: squared target speed minus squared
/// projectile speed.
pub open spec fn icoef_a(target_vel: WorldVec2, proj_vel: int) -> int {
    target_vel.x * target_vel.x + target_vel.y * target_vel.y - proj_vel * proj_vel
}

/// The quadratic's linear coefficient: twice the dot product of the
/// shooter-to-target offset with the target's velocity.
pub open spec fn icoef_b(
    shooter_pos: WorldVec2,
    target_pos: WorldVec2,
    target_vel: WorldVec2,
) -> int {
    2 * ((target_pos.x - shooter_pos.x) * target_vel.x + (target_pos.y - shooter_pos.y)
        * target_vel.y)
}

/// The quadratic's constant coefficient: the squared shooter-to-target
/// distance.
pub open spec fn icoef_c(shooter_pos: WorldVec2, target_pos: WorldVec2) -> int {
    (target_pos.x - shooter_pos.x) * (target_pos.x - shooter_pos.x) + (target_pos.y
        - shooter_pos.y) * (target_pos.y - shooter_pos.y)
}

/// The quadratic's discriminant.
pub open spec fn idisc(
    shooter_pos: WorldVec2,
    target_pos: WorldVec2,
    target_vel: WorldVec2,
    proj_vel: int,
) -> int {
    icoef_b(shooter_pos, target_pos, target_vel) * icoef_b(shooter_pos, target_pos, target_vel) - 4
        * icoef_a(target_vel, proj_vel) * icoef_c(shooter_pos, target_pos)
}

/// The chosen root `(-b - sqrt(disc)) / (2a)` as a fraction with a positive
/// denominator, before the sign test.
pub open spec fn root_num(a: int, b: int, s: int) -> int {
    if a > 0 {
        -b - s
    } else {
        b + s
    }
}

/// The intercept time, as a non-negative fraction `t_num / t_den`.
#[derive(Clone, Copy, Debug, PartialEq, Eq, Structural)]
pub struct InterceptTime {
    pub t_num: i64,
    pub t_den: i64,
}

/// What a returned intercept time means: it is the quadratic's root
/// `(-b - sqrt(disc)) / (2a)`, brought to a positive denominator, and it is
/// non-negative.
pub open spec fn intercept_some_ok(
    shooter_pos: WorldVec2,
    target_pos: WorldVec2,
    target_vel: WorldVec2,
    proj_vel: int,
    sol: InterceptTime,
) -> bool {
    let a = icoef_a(target_vel, proj_vel);
    let b = icoef_b(shooter_pos, target_pos, target_vel);
    let dis = idisc(shooter_pos, target_pos, target_vel, proj_vel);
    &&& dis >= 0
    &&& a != 0
    &&& sol.t_den > 0
    &&& sol.t_num >= 0
    &&& exists|s: int|
        #[trigger] is_isqrt(s, dis) && sol.t_num == root_num(a, b, s) && sol.t_den == 2 * (if a > 0 {
            a
        } else {
            -a
        })
}

/// When no intercept is returned: the discriminant is negative, the
/// quadratic degenerates, or the chosen root is negative.
pub open spec fn intercept_none_ok(
    shooter_pos: WorldVec2,
    target_pos: WorldVec2,
    target_vel: WorldVec2,
    proj_vel: int,
) -> bool {
    let a = icoef_a(target_vel, proj_vel);
    let b = icoef_b(shooter_pos, target_pos, target_vel);
    let dis = idisc(shooter_pos, target_pos, target_vel, proj_vel);
    ||| dis < 0
    ||| a == 0
    ||| forall|s: int| #[trigger] is_isqrt(s, dis) ==> root_num(a, b, s) < 0
}

/// The integer square root is unique.
pub proof fn lemma_isqrt_unique(s1: int, s2: int, n: int)
    requires
        is_isqrt(s1, n),
        is_isqrt(s2, n),
    ensures
        s1 == s2,
{
    assert(s1 == s2) by (nonlinear_arith)
        requires
            0 <= s1 && s1 * s1 <= n && n < (s1 + 1) * (s1 + 1),
            0 <= s2 && s2 * s2 <= n && n < (s2 + 1) * (s2 + 1),
    ;
}

/// Integer square root by binary search, rounded down.
pub fn isqrt_u128(n: u128) -> (s: u128)
    requires
        n < 0x4000_0000_0000_0000_0000_0000_0000_0000,
    ensures
        is_isqrt(s as int, n as int),
{
    if n == 0 {
        return 0;
    }
    let mut lo: u128 = 0;
    let mut hi: u128 = 0x8000_0000_0000_0000;
    proof {
        assert((0x8000_0000_0000_0000 as int) * (0x8000_0000_0000_0000 as int)
            == 0x4000_0000_0000_0000_0000_0000_0000_0000) by (nonlinear_arith);
    }
    while lo + 1 < hi
        invariant
            lo < hi <= 0x8000_0000_0000_0000,
            lo * lo <= n,
            n < hi * hi,
        decreases hi - lo,
    {
        let mid = lo + (hi - lo) / 2;
        proof {
            assert(mid * mid < 0x8000_0000_0000_0000 * 0x8000_0000_0000_0000)
                by (nonlinear_arith)
                requires
                    0 <= mid < 0x8000_0000_0000_0000,
            ;
        }
        if mid * mid <= n {
            lo = mid;
        } else {
            hi = mid;
        }
    }
    lo
}

/// Solves the intercept quadratic for the smallest usable root.
///
/// Coefficients, discriminant and root are computed exactly on whole world
/// units; the root comes back as a non-negative fraction, or `None` when
/// the discriminant is negative, the quadratic degenerates (equal speeds
/// along the approach), or the root is negative.
pub fn calculate_intercept(
    shooter_pos: WorldVec2,
    target_pos: WorldVec2,
    target_vel: WorldVec2,
    proj_vel: i64,
) -> (r: Option<InterceptTime>)
    requires
        -INTERCEPT_BOUND <= shooter_pos.x <= INTERCEPT_BOUND,
        -INTERCEPT_BOUND <= shooter_pos.y <= INTERCEPT_BOUND,
        -INTERCEPT_BOUND <= target_pos.x <= INTERCEPT_BOUND,
        -INTERCEPT_BOUND <= target_pos.y <= INTERCEPT_BOUND,
        -INTERCEPT_BOUND <= target_vel.x <= INTERCEPT_BOUND,
        -INTERCEPT_BOUND <= target_vel.y <= INTERCEPT_BOUND,
        0 < proj_vel <= INTERCEPT_BOUND,
    ensures
        match r {
            Some(sol) => intercept_some_ok(
                shooter_pos,
                target_pos,
                target_vel,
                proj_vel as int,
                sol,
            ),
            None => intercept_none_ok(shooter_pos, target_pos, target_vel, proj_vel as int),
        },
{
    let dx = (target_pos.x - shooter_pos.x) as i128;
    let dy = (target_pos.y - shooter_pos.y) as i128;
    let vx = target_vel.x as i128;
    let vy = target_vel.y as i128;
    let pv = proj_vel as i128;
    proof {
        lemma_products_bounded(dx as int, dy as int, vx as int, vy as int, pv as int);
    }
    let a = vx * vx + vy * vy - pv * pv;
    let b = 2 * (dx * vx + dy * vy);
    let c = dx * dx + dy * dy;
    proof {
        lemma_disc_bounded(a as int, b as int, c as int);
    }
    let bb = b * b;
    let ac = a * c;
    let dis = bb - 4 * ac;
    proof {
        assert(a as int == icoef_a(target_vel, proj_vel as int));
        assert(b as int == icoef_b(shooter_pos, target_pos, target_vel));
        assert(c as int == icoef_c(shooter_pos, target_pos));
        assert(4 * (a as int * c as int) == 4 * (a as int) * (c as int)) by (nonlinear_arith);
        assert(dis as int == idisc(shooter_pos, target_pos, target_vel, proj_vel as int));
    }
    if dis < 0 {
        return None;
    }
    if a == 0 {
        return None;
    }
    let s128 = isqrt_u128(dis as u128);
    proof {
        assert(s128 * s128 <= dis);
        assert(s128 as int <= 0x100_0000_0000_0000 as int) by (nonlinear_arith)
            requires
                0 <= s128,
                s128 * s128 <= 0x8000_0000_0000_0000_0000_0000_0000,
        ;
    }
    let s = s128 as i128;
    let num: i128 = if a > 0 {
        -b - s
    } else {
        b + s
    };
    let den: i128 = if a > 0 {
        2 * a
    } else {
        2 * (-a)
    };
    proof {
        assert(-0x1000_0000_0000_0000 <= num <= 0x1000_0000_0000_0000);
        assert(0 < den <= 0x1000_0000_0000_0000);
    }
    if num < 0 {
        proof {
            assert forall|t: int| #[trigger]
                is_isqrt(t, dis as int) implies root_num(a as int, b as int, t) < 0 by {
                lemma_isqrt_unique(t, s as int, dis as int);
            }
        }
        return None;
    }
    Some(InterceptTime { t_num: num as i64, t_den: den as i64 })
}

/// The quadratic's coefficients stay far from overflow for bounded inputs.
proof fn lemma_products_bounded(dx: int, dy: int, vx: int, vy: int, pv: int)
    requires
        -0x200000 <= dx <= 0x200000,
        -0x200000 <= dy <= 0x200000,
        -0x200000 <= vx <= 0x200000,
        -0x200000 <= vy <= 0x200000,
        -0x200000 <= pv <= 0x200000,
    ensures
        -0x4_0000_0000_0000 <= dx * vx <= 0x4_0000_0000_0000,
        -0x4_0000_0000_0000 <= dy * vy <= 0x4_0000_0000_0000,
        0 <= vx * vx <= 0x4_0000_0000_0000,
        0 <= vy * vy <= 0x4_0000_0000_0000,
        0 <= pv * pv <= 0x4_0000_0000_0000,
        0 <= dx * dx <= 0x4_0000_0000_0000,
        0 <= dy * dy <= 0x4_0000_0000_0000,
{
    assert(-0x4_0000_0000_0000 <= dx * vx <= 0x4_0000_0000_0000 && -0x4_0000_0000_0000 <= dy * vy
        <= 0x4_0000_0000_0000 && 0 <= vx * vx <= 0x4_0000_0000_0000 && 0 <= vy * vy
        <= 0x4_0000_0000_0000 && 0 <= pv * pv <= 0x4_0000_0000_0000 && 0 <= dx * dx
        <= 0x4_0000_0000_0000 && 0 <= dy * dy <= 0x4_0000_0000_0000) by (nonlinear_arith)
        requires
            -0x200000 <= dx <= 0x200000,
            -0x200000 <= dy <= 0x200000,
            -0x200000 <= vx <= 0x200000,
            -0x200000 <= vy <= 0x200000,
            -0x200000 <= pv <= 0x200000,
    ;
}

/// The discriminant's parts stay far from overflow for bounded
/// coefficients.
proof fn lemma_disc_bounded(a: int, b: int, c: int)
    requires
        -0xc_0000_0000_0000 <= a <= 0xc_0000_0000_0000,
        -0x10_0000_0000_0000 <= b <= 0x10_0000_0000_0000,
        0 <= c <= 0x8_0000_0000_0000,
    ensures
        0 <= b * b <= 0x100_0000_0000_0000_0000_0000_0000,
        -0x60_0000_0000_0000_0000_0000_0000 <= a * c <= 0x60_0000_0000_0000_0000_0000_0000,
        -0x8000_0000_0000_0000_0000_0000_0000 <= b * b - 4 * (a * c)
            <= 0x8000_0000_0000_0000_0000_0000_0000,
{
    assert(0 <= b * b <= 0x100_0000_0000_0000_0000_0000_0000 && -0x60_0000_0000_0000_0000_0000_0000
        <= a * c <= 0x60_0000_0000_0000_0000_0000_0000) by (nonlinear_arith)
        requires
            -0xc_0000_0000_0000 <= a <= 0xc_0000_0000_0000,
            -0x10_0000_0000_0000 <= b <= 0x10_0000_0000_0000,
            0 <= c <= 0x8_0000_0000_0000,
    ;
}


/// With the shooter at the origin, a stationary target at distance `d`
/// along the x axis and projectile speed `v`, any returned intercept time
/// is exactly `d / v`: the time numerator and denominator satisfy
/// `t_num * v == t_den * d`.
pub proof fn lemma_intercept_stationary(d: i64, v: i64, sol: InterceptTime)
    requires
        0 < d <= INTERCEPT_BOUND,
        0 < v <= INTERCEPT_BOUND,
        intercept_some_ok(
            WorldVec2 { x: 0, y: 0 },
            WorldVec2 { x: d, y: 0 },
            WorldVec2 { x: 0, y: 0 },
            v as int,
            sol,
        ),
    ensures
        sol.t_num * v == sol.t_den * d,
{
    let a = icoef_a(WorldVec2 { x: 0, y: 0 }, v as int);
    let b = icoef_b(WorldVec2 { x: 0, y: 0 }, WorldVec2 { x: d, y: 0 }, WorldVec2 { x: 0, y: 0 });
    let dis = idisc(
        WorldVec2 { x: 0, y: 0 },
        WorldVec2 { x: d, y: 0 },
        WorldVec2 { x: 0, y: 0 },
        v as int,
    );
    assert(a == -(v as int * v as int) && b == 0 && dis == 4 * (v as int * v as int) * (d as int
        * d as int)) by (nonlinear_arith)
        requires
            a == icoef_a(WorldVec2 { x: 0, y: 0 }, v as int),
            b == icoef_b(
                WorldVec2 { x: 0, y: 0 },
                WorldVec2 { x: d, y: 0 },
                WorldVec2 { x: 0, y: 0 },
            ),
            dis == idisc(
                WorldVec2 { x: 0, y: 0 },
                WorldVec2 { x: d, y: 0 },
                WorldVec2 { x: 0, y: 0 },
                v as int,
            ),
    ;
    let s = choose|s: int|
        #[trigger] is_isqrt(s, dis) && sol.t_num == root_num(a, b, s) && sol.t_den == 2 * (if a > 0 {
            a
        } else {
            -a
        });
    assert(is_isqrt(2 * (v as int) * (d as int), dis)) by (nonlinear_arith)
        requires
            0 < d,
            0 < v,
            dis == 4 * (v as int * v as int) * (d as int * d as int),
    ;
    lemma_isqrt_unique(s, 2 * (v as int) * (d as int), dis);
    assert(sol.t_num * v == sol.t_den * d) by (nonlinear_arith)
        requires
            sol.t_num == 2 * (v as int) * (d as int),
            sol.t_den == 2 * (v as int * v as int),
            0 < v,
    ;
}

/// The stationary-target query of the previous law always has a solution:
/// its "no solution" condition cannot hold.
pub proof fn lemma_intercept_stationary_solvable(d: i64, v: i64)
    requires
        0 < d <= INTERCEPT_BOUND,
        0 < v <= INTERCEPT_BOUND,
    ensures
        !intercept_none_ok(
            WorldVec2 { x: 0, y: 0 },
            WorldVec2 { x: d, y: 0 },
            WorldVec2 { x: 0, y: 0 },
            v as int,
        ),
{
    let a = icoef_a(WorldVec2 { x: 0, y: 0 }, v as int);
    let b = icoef_b(WorldVec2 { x: 0, y: 0 }, WorldVec2 { x: d, y: 0 }, WorldVec2 { x: 0, y: 0 });
    let dis = idisc(
        WorldVec2 { x: 0, y: 0 },
        WorldVec2 { x: d, y: 0 },
        WorldVec2 { x: 0, y: 0 },
        v as int,
    );
    assert(a == -(v as int * v as int) && b == 0 && dis == 4 * (v as int * v as int) * (d as int
        * d as int)) by (nonlinear_arith)
        requires
            a == icoef_a(WorldVec2 { x: 0, y: 0 }, v as int),
            b == icoef_b(
                WorldVec2 { x: 0, y: 0 },
                WorldVec2 { x: d, y: 0 },
                WorldVec2 { x: 0, y: 0 },
            ),
            dis == idisc(
                WorldVec2 { x: 0, y: 0 },
                WorldVec2 { x: d, y: 0 },
                WorldVec2 { x: 0, y: 0 },
                v as int,
            ),
    ;
    assert(a < 0 && dis >= 0 && is_isqrt(2 * (v as int) * (d as int), dis)) by (nonlinear_arith)
        requires
            0 < d,
            0 < v,
            a == -(v as int * v as int),
            dis == 4 * (v as int * v as int) * (d as int * d as int),
    ;
    assert(root_num(a, b, 2 * (v as int) * (d as int)) >= 0);
}

/// A target that is faster than the projectile and is not closing in on
/// the shooter can never be intercepted: the solver reports no solution,
/// whatever the discriminant's sign turns out to be.
pub proof fn lemma_intercept_outrun(
    shooter_pos: WorldVec2,
    target_pos: WorldVec2,
    target_vel: WorldVec2,
    proj_vel: int,
)
    requires
        icoef_a(target_vel, proj_vel) > 0,
        icoef_b(shooter_pos, target_pos, target_vel) >= 0,
        icoef_c(shooter_pos, target_pos) > 0,
    ensures
        intercept_none_ok(shooter_pos, target_pos, target_vel, proj_vel),
{
    let a = icoef_a(target_vel, proj_vel);
    let b = icoef_b(shooter_pos, target_pos, target_vel);
    let c = icoef_c(shooter_pos, target_pos);
    let dis = idisc(shooter_pos, target_pos, target_vel, proj_vel);
    if dis >= 0 {
        assert forall|s: int| #[trigger] is_isqrt(s, dis) implies root_num(a, b, s) < 0 by {
            if s == 0 {
                assert((0int + 1) * (0int + 1) == 1) by (nonlinear_arith);
                assert(dis == 0);
                assert(b > 0) by (nonlinear_arith)
                    requires
                        a > 0,
                        c > 0,
                        b >= 0,
                        b * b - 4 * a * c == 0,
                ;
            }
        }
    }
}


/// The world-space intercept point `target + vel * t` for a solved time,
/// each coordinate rounded down to a whole world unit; `None` when the
/// point falls outside the world bounds the rest of the library works in.
pub fn intercept_point(
    target_pos: WorldVec2,
    target_vel: WorldVec2,
    sol: InterceptTime,
) -> (r: Option<WorldVec2>)
    requires
        -INTERCEPT_BOUND <= target_pos.x <= INTERCEPT_BOUND,
        -INTERCEPT_BOUND <= target_pos.y <= INTERCEPT_BOUND,
        -INTERCEPT_BOUND <= target_vel.x <= INTERCEPT_BOUND,
        -INTERCEPT_BOUND <= target_vel.y <= INTERCEPT_BOUND,
        0 < sol.t_den <= 0x1000_0000_0000_0000,
        0 <= sol.t_num <= 0x1000_0000_0000_0000,
    ensures
        match r {
            Some(p) => {
                &&& p.x == floor_div(
                    target_pos.x * sol.t_den + target_vel.x * sol.t_num,
                    sol.t_den as int,
                )
                &&& p.y == floor_div(
                    target_pos.y * sol.t_den + target_vel.y * sol.t_num,
                    sol.t_den as int,
                )
                &&& -WORLD_BOUND <= p.x <= WORLD_BOUND
                &&& -WORLD_BOUND <= p.y <= WORLD_BOUND
            },
            None => {
                ||| !(-WORLD_BOUND <= floor_div(
                    target_pos.x * sol.t_den + target_vel.x * sol.t_num,
                    sol.t_den as int,
                ) <= WORLD_BOUND)
                ||| !(-WORLD_BOUND <= floor_div(
                    target_pos.y * sol.t_den + target_vel.y * sol.t_num,
                    sol.t_den as int,
                ) <= WORLD_BOUND)
            },
        },
{
    let den = sol.t_den as i128;
    proof {
        lemma_point_products(
            target_pos.x as int,
            target_pos.y as int,
            target_vel.x as int,
            target_vel.y as int,
            sol.t_num as int,
            sol.t_den as int,
        );
    }
    let xn = (target_pos.x as i128) * den + (target_vel.x as i128) * (sol.t_num as i128);
    let yn = (target_pos.y as i128) * den + (target_vel.y as i128) * (sol.t_num as i128);
    proof {
        lemma_floor_div_bounds(xn as int, den as int);
        lemma_floor_div_bounds(yn as int, den as int);
    }
    let px = floor_div_i128(xn, den);
    let py = floor_div_i128(yn, den);
    if px < -WORLD_BOUND as i128 || px > WORLD_BOUND as i128 || py < -WORLD_BOUND as i128 || py
        > WORLD_BOUND as i128 {
        return None;
    }
    Some(WorldVec2 { x: px as i64, y: py as i64 })
}

/// The intercept point's numerators stay far from overflow.
proof fn lemma_point_products(px: int, py: int, vx: int, vy: int, num: int, den: int)
    requires
        -0x100000 <= px <= 0x100000,
        -0x100000 <= py <= 0x100000,
        -0x100000 <= vx <= 0x100000,
        -0x100000 <= vy <= 0x100000,
        0 <= num <= 0x1000_0000_0000_0000,
        0 < den <= 0x1000_0000_0000_0000,
    ensures
        -0x10_0000_0000_0000_0000_0000 <= px * den <= 0x10_0000_0000_0000_0000_0000,
        -0x10_0000_0000_0000_0000_0000 <= py * den <= 0x10_0000_0000_0000_0000_0000,
        -0x10_0000_0000_0000_0000_0000 <= vx * num <= 0x10_0000_0000_0000_0000_0000,
        -0x10_0000_0000_0000_0000_0000 <= vy * num <= 0x10_0000_0000_0000_0000_0000,
{
    assert(-0x10_0000_0000_0000_0000_0000 <= px * den <= 0x10_0000_0000_0000_0000_0000
        && -0x10_0000_0000_0000_0000_0000 <= py * den <= 0x10_0000_0000_0000_0000_0000
        && -0x10_0000_0000_0000_0000_0000 <= vx * num <= 0x10_0000_0000_0000_0000_0000
        && -0x10_0000_0000_0000_0000_0000 <= vy * num <= 0x10_0000_0000_0000_0000_0000)
        by (nonlinear_arith)
        requires
            -0x100000 <= px <= 0x100000,
            -0x100000 <= py <= 0x100000,
            -0x100000 <= vx <= 0x100000,
            -0x100000 <= vy <= 0x100000,
            0 <= num <= 0x1000_0000_0000_0000,
            0 < den <= 0x1000_0000_0000_0000,
    ;
}

} // verus!


