use vstd::prelude::*;
use crate::fixed::{UNIT, Vec3, fits};
use crate::viewer::{Capabilities, Viewer};

verus! {

/// Walking speed: 5 units per second, that is 5 micro-units per microsecond.
pub const PLAYER_SPEED: i64 = 5;

/// Upward offset rate of a jump without gravity: 5 micro-units per microsecond.
pub const JUMP_SPEED: i64 = 5;

/// The movement keys held in a frame.
#[derive(Clone, Copy, Debug, PartialEq, Eq, Structural)]
pub struct MoveKeys {
    pub forward: bool,
    pub backward: bool,
    pub left: bool,
    pub right: bool,
}

/// The viewer's forward and right directions, unit vectors in micro-units,
/// as derived from its orientation.
#[derive(Clone, Copy, Debug, PartialEq, Eq, Structural)]
pub struct Basis {
    pub forward: Vec3,
    pub right: Vec3,
}

/// Every coordinate of `v` lies in `[-UNIT, UNIT]`, as those of a unit vector do.
pub open spec fn unit_bounded(v: Vec3) -> bool {
    &&& -UNIT <= v.x <= UNIT
    &&& -UNIT <= v.y <= UNIT
    &&& -UNIT <= v.z <= UNIT
}

pub open spec fn basis_ok(b: Basis) -> bool {
    unit_bounded(b.forward) && unit_bounded(b.right)
}

/// `a` if `held`, else 0.
pub open spec fn held_part(held: bool, a: int) -> int {
    if held {
        a
    } else {
        0
    }
}

/// The horizontal part `(x, z)` of the sum of `forward` (forward key),
/// `-forward` (backward key), `right` (right key) and `-right` (left key).
pub open spec fn heading(keys: MoveKeys, b: Basis) -> (int, int) {
    (
        held_part(keys.forward, b.forward.x as int) - held_part(keys.backward, b.forward.x as int)
            + held_part(keys.right, b.right.x as int) - held_part(keys.left, b.right.x as int),
        held_part(keys.forward, b.forward.z as int) - held_part(keys.backward, b.forward.z as int)
            + held_part(keys.right, b.right.z as int) - held_part(keys.left, b.right.z as int),
    )
}

/// The integer square root: the largest `r` with `r * r <= n`.
pub open spec fn isqrt(n: nat) -> nat
    decreases n,
{
    if n == 0 {
        0
    } else {
        let r = isqrt((n - 1) as nat);
        if (r + 1) * (r + 1) <= n {
            r + 1
        } else {
            r
        }
    }
}

/// `a / b` rounded toward zero, for `b > 0`.
pub open spec fn trunc_div(a: int, b: int) -> int {
    if a >= 0 {
        a / b
    } else {
        -((-a) / b)
    }
}

/// The factor by which the heading is enlarged before its length is taken,
/// so that the integer square root is exact to one part in `NORM_SCALE`
/// of the length.
pub const NORM_SCALE: i128 = 0x10_0000;

/// The squared length of the heading enlarged by `NORM_SCALE`.
pub open spec fn scaled_norm2(h: (int, int)) -> int {
    (h.0 * NORM_SCALE) * (h.0 * NORM_SCALE) + (h.1 * NORM_SCALE) * (h.1 * NORM_SCALE)
}

/// The horizontal displacement `(x, z)` in micro-units over `dt`
/// microseconds: the heading divided by its length and multiplied by
/// `PLAYER_SPEED * dt`, or none where the heading is zero. The length is
/// the integer square root of `scaled_norm2` (the heading enlarged by
/// `NORM_SCALE`), and each coordinate is rounded toward zero.
pub open spec fn displacement(keys: MoveKeys, b: Basis, dt: u32) -> (int, int) {
    let h = heading(keys, b);
    let n = scaled_norm2(h);
    if n == 0 {
        (0, 0)
    } else {
        let len = isqrt(n as nat) as int;
        (
            trunc_div(h.0 * NORM_SCALE * PLAYER_SPEED * dt, len),
            trunc_div(h.1 * NORM_SCALE * PLAYER_SPEED * dt, len),
        )
    }
}

/// Height after the instant jump offset of a controller without gravity.
pub open spec fn jumped_height(v: Viewer, caps: Capabilities, jump: bool, dt: u32) -> int {
    if !caps.has_gravity && jump {
        v.position.y + JUMP_SPEED * dt
    } else {
        v.position.y as int
    }
}

/// The inputs of a movement step leave every coordinate within `i64`.
pub open spec fn movement_fits(v: Viewer, caps: Capabilities, keys: MoveKeys, jump: bool, b: Basis, dt: u32) -> bool {
    &&& fits(v.position.x + displacement(keys, b, dt).0)
    &&& fits(v.position.z + displacement(keys, b, dt).1)
    &&& fits(jumped_height(v, caps, jump, dt))
}

/// The viewer after a movement step: displaced horizontally, lifted by the
/// jump offset where there is no gravity, and kept at height 1 or above.
pub open spec fn movement_step(v: Viewer, caps: Capabilities, keys: MoveKeys, jump: bool, b: Basis, dt: u32) -> Viewer {
    let d = displacement(keys, b, dt);
    let y = jumped_height(v, caps, jump, dt);
    Viewer {
        position: Vec3 {
            x: (v.position.x + d.0) as i64,
            y: (if y < UNIT { UNIT as int } else { y }) as i64,
            z: (v.position.z + d.1) as i64,
        },
        ..v
    }
}

proof fn lemma_isqrt(n: nat)
    ensures
        isqrt(n) * isqrt(n) <= n < (isqrt(n) + 1) * (isqrt(n) + 1),
    decreases n,
{
    if n > 0 {
        lemma_isqrt((n - 1) as nat);
        let r = isqrt((n - 1) as nat);
        let s = isqrt(n);
        if (r + 1) * (r + 1) <= n {
            assert(s == r + 1);
            assert(s * s <= n < (s + 1) * (s + 1)) by (nonlinear_arith)
                requires
                    s == r + 1,
                    (r + 1) * (r + 1) <= n,
                    n - 1 < (r + 1) * (r + 1),
            ;
        } else {
            assert(s * s <= n < (s + 1) * (s + 1)) by (nonlinear_arith)
                requires
                    s == r,
                    r * r <= n - 1,
                    n < (r + 1) * (r + 1),
            ;
        }
    } else {
        assert(isqrt(n) == 0);
        assert(0 * 0 <= n < (0 + 1) * (0 + 1)) by (nonlinear_arith)
            requires
                n == 0,
        ;
    }
}

proof fn lemma_root_unique(r: nat, s: nat, n: nat)
    requires
        r * r <= n < (r + 1) * (r + 1),
        s * s <= n < (s + 1) * (s + 1),
    ensures
        r == s,
{
    if r < s {
        assert((r + 1) * (r + 1) <= s * s) by (nonlinear_arith)
            requires
                r + 1 <= s,
        ;
    } else if s < r {
        assert((s + 1) * (s + 1) <= r * r) by (nonlinear_arith)
            requires
                s + 1 <= r,
        ;
    }
}

/// The integer square root of `n`, by bisection.
pub fn integer_sqrt(n: u128) -> (r: u128)
    ensures
        r == isqrt(n as nat),
        r < 0x1_0000_0000_0000_0000,
{
    let mut lo: u128 = 0;
    let mut hi: u128 = 0x1_0000_0000_0000_0000;
    assert(n < 0x1_0000_0000_0000_0000 * 0x1_0000_0000_0000_0000);
    while hi - lo > 1
        invariant
            lo < hi <= 0x1_0000_0000_0000_0000,
            lo * lo <= n,
            n < hi * hi,
        decreases hi - lo,
    {
        let mid: u128 = lo + (hi - lo) / 2;
        assert(mid * mid < 0x1_0000_0000_0000_0000 * 0x1_0000_0000_0000_0000) by (nonlinear_arith)
            requires
                mid < 0x1_0000_0000_0000_0000,
        ;
        if mid * mid <= n {
            lo = mid;
        } else {
            hi = mid;
        }
    }
    proof {
        lemma_isqrt(n as nat);
        lemma_root_unique(lo as nat, isqrt(n as nat), n as nat);
    }
    lo
}

/// `a / b` rounded toward zero.
fn div_toward_zero(a: i128, b: i128) -> (r: i128)
    requires
        b > 0,
    ensures
        r == trunc_div(a as int, b as int),
{
    a.checked_div(b).unwrap()
}

/// `a` if `held`, else 0.
fn held_value(held: bool, a: i64) -> (r: i64)
    ensures
        r == held_part(held, a as int),
{
    if held {
        a
    } else {
        0
    }
}

/// The horizontal displacement of a movement step, as `displacement` states it.
pub fn horizontal_displacement(keys: MoveKeys, b: Basis, dt: u32) -> (r: (i128, i128))
    requires
        basis_ok(b),
    ensures
        r.0 == displacement(keys, b, dt).0,
        r.1 == displacement(keys, b, dt).1,
{
    let hx: i64 = held_value(keys.forward, b.forward.x) - held_value(keys.backward, b.forward.x)
        + held_value(keys.right, b.right.x) - held_value(keys.left, b.right.x);
    let hz: i64 = held_value(keys.forward, b.forward.z) - held_value(keys.backward, b.forward.z)
        + held_value(keys.right, b.right.z) - held_value(keys.left, b.right.z);
    let sx: i128 = hx as i128 * NORM_SCALE;
    let sz: i128 = hz as i128 * NORM_SCALE;
    let bound: i128 = 2 * UNIT as i128 * NORM_SCALE;
    assert(bound == 2_097_152_000_000);
    assert(0 <= sx * sx <= 0x1000_0000_0000_0000_0000_0000 && 0 <= sz * sz
        <= 0x1000_0000_0000_0000_0000_0000) by (nonlinear_arith)
        requires
            -2_097_152_000_000 <= sx <= 2_097_152_000_000,
            -2_097_152_000_000 <= sz <= 2_097_152_000_000,
    ;
    let n: i128 = sx * sx + sz * sz;
    if n == 0 {
        (0, 0)
    } else {
        let root = integer_sqrt(n as u128);
        proof {
            lemma_isqrt(n as nat);
            let s = isqrt(n as nat);
            assert(s > 0) by (nonlinear_arith)
                requires
                    n > 0,
                    n < (s + 1) * (s + 1),
                    s >= 0,
            ;
        }
        let len = root as i128;
        let c: i128 = PLAYER_SPEED as i128 * dt as i128;
        assert(-bound * 0x10_0000_0000 <= sx * c <= bound * 0x10_0000_0000 && -bound * 0x10_0000_0000
            <= sz * c <= bound * 0x10_0000_0000) by (nonlinear_arith)
            requires
                -bound <= sx <= bound,
                -bound <= sz <= bound,
                0 <= c < 0x10_0000_0000,
        ;
        assert(sx * c == hx * NORM_SCALE * PLAYER_SPEED * dt) by (nonlinear_arith)
            requires
                sx == hx * NORM_SCALE,
                c == PLAYER_SPEED * dt,
        ;
        assert(sz * c == hz * NORM_SCALE * PLAYER_SPEED * dt) by (nonlinear_arith)
            requires
                sz == hz * NORM_SCALE,
                c == PLAYER_SPEED * dt,
        ;
        (div_toward_zero(sx * c, len), div_toward_zero(sz * c, len))
    }
}

/// Horizontal Movement: moves the viewer along its heading at
/// `PLAYER_SPEED`, adds the instant jump offset where there is no gravity,
/// and keeps the viewer at height 1 or above.
pub fn player_movement(
    viewer: &mut Viewer,
    caps: Capabilities,
    keys: MoveKeys,
    jump: bool,
    b: Basis,
    dt: u32,
)
    requires
        basis_ok(b),
        movement_fits(*old(viewer), caps, keys, jump, b, dt),
    ensures
        *final(viewer) == movement_step(*old(viewer), caps, keys, jump, b, dt),
        final(viewer).wf(),
{
    let d = horizontal_displacement(keys, b, dt);
    viewer.position.x = (viewer.position.x as i128 + d.0) as i64;
    viewer.position.z = (viewer.position.z as i128 + d.1) as i64;
    if !caps.has_gravity && jump {
        viewer.position.y = viewer.position.y + JUMP_SPEED * dt as i64;
    }
    if viewer.position.y < UNIT {
        viewer.position.y = UNIT;
    }
}

/// Holding both keys of each opposite pair (or neither) moves the viewer
/// nowhere horizontally, whatever the frame time.
pub proof fn lemma_opposite_keys_cancel(keys: MoveKeys, b: Basis, dt: u32)
    requires
        keys.forward == keys.backward,
        keys.left == keys.right,
    ensures
        displacement(keys, b, dt) == (0int, 0int),
{
    let h = heading(keys, b);
    assert(h.0 == 0 && h.1 == 0);
    assert(scaled_norm2(h) == 0) by (nonlinear_arith)
        requires
            h.0 == 0,
            h.1 == 0,
            scaled_norm2(h) == (h.0 * NORM_SCALE) * (h.0 * NORM_SCALE) + (h.1 * NORM_SCALE) * (h.1
                * NORM_SCALE),
    ;
}

/// Holding both keys of each opposite pair (or neither) leaves the viewer's
/// horizontal position unchanged by a movement step.
pub proof fn lemma_opposite_keys_hold_position(
    v: Viewer,
    caps: Capabilities,
    keys: MoveKeys,
    jump: bool,
    b: Basis,
    dt: u32,
)
    requires
        keys.forward == keys.backward,
        keys.left == keys.right,
    ensures
        movement_step(v, caps, keys, jump, b, dt).position.x == v.position.x,
        movement_step(v, caps, keys, jump, b, dt).position.z == v.position.z,
{
    lemma_opposite_keys_cancel(keys, b, dt);
}

proof fn lemma_trunc_div_bounds(a: int, l: int)
    requires
        l > 0,
    ensures
        ({
            let q = trunc_div(a, l);
            let m = if q >= 0 { q } else { -q };
            &&& (q * l) * (q * l) <= a * a
            &&& a * a < ((m + 1) * l) * ((m + 1) * l)
        }),
{
    let m = if a >= 0 { a } else { -a };
    vstd::arithmetic::div_mod::lemma_fundamental_div_mod(m, l);
    let p = m / l;
    vstd::arithmetic::div_mod::lemma_div_pos_is_pos(m, l);
    assert(0 <= p * l <= m < (p + 1) * l) by (nonlinear_arith)
        requires
            m == l * p + m % l,
            0 <= m % l < l,
            p >= 0,
            l > 0,
    ;
    assert((p * l) * (p * l) <= m * m < ((p + 1) * l) * ((p + 1) * l)) by (nonlinear_arith)
        requires
            0 <= p * l <= m < (p + 1) * l,
    ;
    assert(m * m == a * a) by (nonlinear_arith)
        requires
            m == a || m == -a,
    ;
    let q = trunc_div(a, l);
    assert(q == p || q == -p);
    assert((q * l) * (q * l) == (p * l) * (p * l)) by (nonlinear_arith)
        requires
            q == p || q == -p,
    ;
}

/// The walking step has the speed `c = PLAYER_SPEED * dt` up to rounding:
/// with `n` the enlarged squared length of the heading and `len` its integer
/// square root, the step `d` satisfies `|d|² · len² <= n · c²` (at most the
/// speed, as `len² <= n < (len + 1)²`), and rounding each coordinate of `d`
/// away from zero by one gives more than `n · c²`, so at least the speed.
pub proof fn lemma_step_speed(keys: MoveKeys, b: Basis, dt: u32)
    requires
        heading(keys, b) != (0int, 0int),
    ensures
        ({
            let h = heading(keys, b);
            let n = scaled_norm2(h);
            let len = isqrt(n as nat) as int;
            let c = PLAYER_SPEED * dt;
            let d = displacement(keys, b, dt);
            let m0 = if d.0 >= 0 { d.0 } else { -d.0 };
            let m1 = if d.1 >= 0 { d.1 } else { -d.1 };
            &&& (d.0 * d.0 + d.1 * d.1) * (len * len) <= n * (c * c)
            &&& ((m0 + 1) * (m0 + 1) + (m1 + 1) * (m1 + 1)) * (len * len) > n * (c * c)
        }),
{
    lemma_normalizer_close(keys, b);
    let h = heading(keys, b);
    let n = scaled_norm2(h);
    let len = isqrt(n as nat) as int;
    let c = PLAYER_SPEED * dt;
    let d = displacement(keys, b, dt);
    let a0 = h.0 * NORM_SCALE * PLAYER_SPEED * dt;
    let a1 = h.1 * NORM_SCALE * PLAYER_SPEED * dt;
    assert(n != 0);
    assert(d == (trunc_div(a0, len), trunc_div(a1, len)));
    lemma_trunc_div_bounds(a0, len);
    lemma_trunc_div_bounds(a1, len);
    let m0 = if d.0 >= 0 { d.0 } else { -d.0 };
    let m1 = if d.1 >= 0 { d.1 } else { -d.1 };
    assert(a0 * a0 + a1 * a1 == n * (c * c)) by (nonlinear_arith)
        requires
            a0 == h.0 * NORM_SCALE * PLAYER_SPEED * dt,
            a1 == h.1 * NORM_SCALE * PLAYER_SPEED * dt,
            c == PLAYER_SPEED * dt,
            n == (h.0 * NORM_SCALE) * (h.0 * NORM_SCALE) + (h.1 * NORM_SCALE) * (h.1 * NORM_SCALE),
    ;
    assert((d.0 * d.0 + d.1 * d.1) * (len * len) == (d.0 * len) * (d.0 * len) + (d.1 * len) * (d.1
        * len)) by (nonlinear_arith);
    assert(((m0 + 1) * (m0 + 1) + (m1 + 1) * (m1 + 1)) * (len * len) == ((m0 + 1) * len) * ((m0
        + 1) * len) + ((m1 + 1) * len) * ((m1 + 1) * len)) by (nonlinear_arith);
}

/// For a nonzero heading the length used to normalize it is the integer
/// square root of its squared length enlarged by `NORM_SCALE`, and is at
/// least `NORM_SCALE`: it is off from the true enlarged length by less than
/// one, a relative error below `1 / NORM_SCALE`.
pub proof fn lemma_normalizer_close(keys: MoveKeys, b: Basis)
    requires
        heading(keys, b) != (0int, 0int),
    ensures
        ({
            let n = scaled_norm2(heading(keys, b));
            let len = isqrt(n as nat) as int;
            &&& len * len <= n < (len + 1) * (len + 1)
            &&& len >= NORM_SCALE
        }),
{
    let h = heading(keys, b);
    let n = scaled_norm2(h);
    let k = NORM_SCALE as int;
    assert(n >= k * k) by (nonlinear_arith)
        requires
            n == (h.0 * k) * (h.0 * k) + (h.1 * k) * (h.1 * k),
            h.0 != 0 || h.1 != 0,
            k > 0,
    ;
    lemma_isqrt(n as nat);
    let len = isqrt(n as nat) as int;
    if len < k {
        assert((len + 1) * (len + 1) <= k * k) by (nonlinear_arith)
            requires
                0 <= len,
                len + 1 <= k,
        ;
    }
}

/// With no movement key held and no jump, a movement step leaves the viewer
/// where it stands, whatever the frame time.
pub proof fn lemma_no_keys_no_motion(v: Viewer, caps: Capabilities, b: Basis, dt: u32)
    requires
        v.wf(),
    ensures
        movement_step(v, caps, MoveKeys { forward: false, backward: false, left: false, right: false }, false, b, dt) == v,
{
    let keys = MoveKeys { forward: false, backward: false, left: false, right: false };
    lemma_opposite_keys_cancel(keys, b, dt);
}

} // verus!
