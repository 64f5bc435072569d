//! Exact scalar arithmetic for Penrose P2 geometry.
//!
//! Every coordinate this crate ever produces lies in the ring generated by
//! 1, sqrt(5) and sin(36 degrees) with denominators that are powers of two:
//! a scalar is (a + b*sqrt(5) + (c + d*sqrt(5))*sin36) / 2^k.  The golden
//! ratio phi = (1 + sqrt(5))/2 and the height constant h = phi^2 * sin36 of
//! the two tile shapes both have this form, and the set is closed under
//! addition, halving and multiplication (sin36^2 == (5 - sqrt(5))/8), so the
//! whole tile engine works with exact integer arithmetic instead of floats.

use vstd::arithmetic::power2::*;
use vstd::prelude::*;

verus! {

/// Mathematical model of a scalar: the four numerators and the scale
/// exponent, as unbounded integers.  The value denoted is
/// (a + b*sqrt(5) + (c + d*sqrt(5))*sin36) / 2^k.
pub ghost struct Quartic {
    pub a: int,
    pub b: int,
    pub c: int,
    pub d: int,
    pub k: nat,
}

/// A scalar rewritten at the fixed reference scale 2^ref_scale(): the four
/// numerators of value * 2^ref_scale().  Two scalars with the same `Fixed`
/// form denote the same real number, whatever their own scales are.
pub ghost struct Fixed {
    pub a: int,
    pub b: int,
    pub c: int,
    pub d: int,
}

/// `pow2` as an `int`, to keep clauses free of casts.
pub open spec fn pow2i(e: nat) -> int {
    pow2(e) as int
}

/// Reference scale exponent used by `Quartic::fixed`.
pub open spec fn ref_scale() -> nat {
    60
}

impl Quartic {
    /// The same value written with `j` more scale bits.
    pub open spec fn lift(self, j: nat) -> Quartic {
        Quartic {
            a: self.a * pow2i(j),
            b: self.b * pow2i(j),
            c: self.c * pow2i(j),
            d: self.d * pow2i(j),
            k: self.k + j,
        }
    }

    /// Exact sum, written at the larger of the two scales.
    pub open spec fn plus(self, o: Quartic) -> Quartic {
        if self.k <= o.k {
            let u = self.lift((o.k - self.k) as nat);
            Quartic { a: u.a + o.a, b: u.b + o.b, c: u.c + o.c, d: u.d + o.d, k: o.k }
        } else {
            let v = o.lift((self.k - o.k) as nat);
            Quartic { a: self.a + v.a, b: self.b + v.b, c: self.c + v.c, d: self.d + v.d, k: self.k }
        }
    }

    pub open spec fn negate(self) -> Quartic {
        Quartic { a: -self.a, b: -self.b, c: -self.c, d: -self.d, k: self.k }
    }

    /// Exact difference, written at the larger of the two scales.
    pub open spec fn minus(self, o: Quartic) -> Quartic {
        if self.k <= o.k {
            let u = self.lift((o.k - self.k) as nat);
            Quartic { a: u.a - o.a, b: u.b - o.b, c: u.c - o.c, d: u.d - o.d, k: o.k }
        } else {
            let v = o.lift((self.k - o.k) as nat);
            Quartic { a: self.a - v.a, b: self.b - v.b, c: self.c - v.c, d: self.d - v.d, k: self.k }
        }
    }

    /// Exact doubling at the same scale.
    pub open spec fn doubled(self) -> Quartic {
        Quartic { a: 2 * self.a, b: 2 * self.b, c: 2 * self.c, d: 2 * self.d, k: self.k }
    }

    /// Exact halving: one more scale bit.
    pub open spec fn halved(self) -> Quartic {
        Quartic { a: self.a, b: self.b, c: self.c, d: self.d, k: self.k + 1 }
    }

    /// Exact product.  The cross term uses sin36^2 == (5 - sqrt(5))/8, so
    /// the result carries three extra scale bits.
    pub open spec fn times(self, o: Quartic) -> Quartic {
        let p: int = self.c * o.c + 5 * (self.d * o.d);
        let q: int = self.c * o.d + self.d * o.c;
        Quartic {
            a: 8 * (self.a * o.a + 5 * (self.b * o.b)) + 5 * p - 5 * q,
            b: 8 * (self.a * o.b + self.b * o.a) + 5 * q - p,
            c: 8 * (self.a * o.c + 5 * (self.b * o.d) + self.c * o.a + 5 * (self.d * o.b)),
            d: 8 * (self.a * o.d + self.b * o.c + self.c * o.b + self.d * o.a),
            k: self.k + o.k + 3,
        }
    }

    /// The numerators of value * 2^ref_scale(); meaningful when k <= ref_scale().
    pub open spec fn fixed(self) -> Fixed {
        Fixed {
            a: self.a * pow2i((ref_scale() - self.k) as nat),
            b: self.b * pow2i((ref_scale() - self.k) as nat),
            c: self.c * pow2i((ref_scale() - self.k) as nat),
            d: self.d * pow2i((ref_scale() - self.k) as nat),
        }
    }

    /// Numerators bounded by 2^(e + k): the denoted value is bounded by
    /// roughly 2^e, whatever the scale.  This is the precondition shape the
    /// executable operations use to rule out `i64` overflow.
    pub open spec fn bnd(self, e: nat) -> bool {
        &&& -pow2i(e + self.k) <= self.a <= pow2i(e + self.k)
        &&& -pow2i(e + self.k) <= self.b <= pow2i(e + self.k)
        &&& -pow2i(e + self.k) <= self.c <= pow2i(e + self.k)
        &&& -pow2i(e + self.k) <= self.d <= pow2i(e + self.k)
    }

    /// Numerators bounded by 2^m outright.
    pub open spec fn flat(self, m: nat) -> bool {
        &&& -pow2i(m) <= self.a <= pow2i(m)
        &&& -pow2i(m) <= self.b <= pow2i(m)
        &&& -pow2i(m) <= self.c <= pow2i(m)
        &&& -pow2i(m) <= self.d <= pow2i(m)
    }
}

/// Componentwise sum of two reference-scale forms.
pub open spec fn fadd(p: Fixed, q: Fixed) -> Fixed {
    Fixed { a: p.a + q.a, b: p.b + q.b, c: p.c + q.c, d: p.d + q.d }
}

/// Componentwise difference of two reference-scale forms.
pub open spec fn fsub(p: Fixed, q: Fixed) -> Fixed {
    Fixed { a: p.a - q.a, b: p.b - q.b, c: p.c - q.c, d: p.d - q.d }
}

/// A reference-scale form scaled by an integer.
pub open spec fn fscale(n: int, p: Fixed) -> Fixed {
    Fixed { a: n * p.a, b: n * p.b, c: n * p.c, d: n * p.d }
}

/// The reference-scale form of zero.
pub open spec fn fzero() -> Fixed {
    Fixed { a: 0, b: 0, c: 0, d: 0 }
}

/// Value equality of two scalars: the cross-scaled numerators agree.
pub open spec fn qeq(u: Quartic, v: Quartic) -> bool {
    &&& u.a * pow2i(v.k) == v.a * pow2i(u.k)
    &&& u.b * pow2i(v.k) == v.b * pow2i(u.k)
    &&& u.c * pow2i(v.k) == v.c * pow2i(u.k)
    &&& u.d * pow2i(v.k) == v.d * pow2i(u.k)
}

/// All four numerators are zero: the scalar denotes zero at any scale.
pub open spec fn is_qzero(q: Quartic) -> bool {
    q.a == 0 && q.b == 0 && q.c == 0 && q.d == 0
}

/// An exact scalar with machine-word numerators.  The denoted value is
/// (a + b*sqrt(5) + (c + d*sqrt(5))*sin36) / 2^k.
#[derive(Clone, Copy, PartialEq, Eq, Structural, Debug)]
pub struct Coord {
    pub a: i64,
    pub b: i64,
    pub c: i64,
    pub d: i64,
    pub k: u32,
}

impl View for Coord {
    type V = Quartic;

    open spec fn view(&self) -> Quartic {
        Quartic { a: self.a as int, b: self.b as int, c: self.c as int, d: self.d as int, k: self.k as nat }
    }
}

pub proof fn lemma_pow2_le(e1: nat, e2: nat)
    requires
        e1 <= e2,
    ensures
        pow2(e1) <= pow2(e2),
{
    if e1 < e2 {
        lemma_pow2_strictly_increases(e1, e2);
    }
}

/// |x| <= 2^p implies |x * 2^q| <= 2^(p+q).
pub proof fn lemma_mul_pow2_bound(x: int, p: nat, q: nat)
    requires
        -pow2i(p) <= x <= pow2i(p),
    ensures
        -pow2i(p + q) <= x * pow2i(q) <= pow2i(p + q),
{
    lemma_pow2_adds(p, q);
    lemma_pow2_pos(q);
    assert(-pow2i(p + q) <= x * pow2i(q) <= pow2i(p + q)) by (nonlinear_arith)
        requires
            -pow2i(p) <= x <= pow2i(p),
            pow2i(p + q) == pow2i(p) * pow2i(q),
            pow2i(q) > 0,
    ;
}

/// |x| <= mx and |y| <= my imply |x * y| <= mx * my.
pub proof fn lemma_abs_mul(x: int, y: int, mx: int, my: int)
    requires
        -mx <= x <= mx,
        -my <= y <= my,
    ensures
        -(mx * my) <= x * y <= mx * my,
{
    assert(-(mx * my) <= x * y <= mx * my) by (nonlinear_arith)
        requires
            -mx <= x <= mx,
            -my <= y <= my,
    ;
}

/// Shifting distributes over a scaled sum: used to relate `plus` to `fixed`.
proof fn lemma_shift_scale(x: int, y: int, j: nat, t: nat, s: nat)
    requires
        pow2i(j) * pow2i(t) == pow2i(s),
    ensures
        (x * pow2i(j) + y) * pow2i(t) == x * pow2i(s) + y * pow2i(t),
{
    assert((x * pow2i(j) + y) * pow2i(t) == x * pow2i(s) + y * pow2i(t)) by (nonlinear_arith)
        requires
            pow2i(j) * pow2i(t) == pow2i(s),
    ;
}

/// `fixed` turns `plus` into plain componentwise integer addition.
pub proof fn lemma_fixed_plus(u: Quartic, v: Quartic)
    requires
        u.k <= ref_scale(),
        v.k <= ref_scale(),
    ensures
        u.plus(v).k <= ref_scale(),
        u.plus(v).fixed().a == u.fixed().a + v.fixed().a,
        u.plus(v).fixed().b == u.fixed().b + v.fixed().b,
        u.plus(v).fixed().c == u.fixed().c + v.fixed().c,
        u.plus(v).fixed().d == u.fixed().d + v.fixed().d,
{
    if u.k <= v.k {
        let j = (v.k - u.k) as nat;
        let t = (ref_scale() - v.k) as nat;
        let s = (ref_scale() - u.k) as nat;
        lemma_pow2_adds(j, t);
        lemma_shift_scale(u.a, v.a, j, t, s);
        lemma_shift_scale(u.b, v.b, j, t, s);
        lemma_shift_scale(u.c, v.c, j, t, s);
        lemma_shift_scale(u.d, v.d, j, t, s);
    } else {
        let j = (u.k - v.k) as nat;
        let t = (ref_scale() - u.k) as nat;
        let s = (ref_scale() - v.k) as nat;
        lemma_pow2_adds(j, t);
        lemma_shift_scale(v.a, u.a, j, t, s);
        lemma_shift_scale(v.b, u.b, j, t, s);
        lemma_shift_scale(v.c, u.c, j, t, s);
        lemma_shift_scale(v.d, u.d, j, t, s);
    }
}

/// `fixed` turns `minus` into plain componentwise integer subtraction.
pub proof fn lemma_fixed_minus(u: Quartic, v: Quartic)
    requires
        u.k <= ref_scale(),
        v.k <= ref_scale(),
    ensures
        u.minus(v).k <= ref_scale(),
        u.minus(v).fixed().a == u.fixed().a - v.fixed().a,
        u.minus(v).fixed().b == u.fixed().b - v.fixed().b,
        u.minus(v).fixed().c == u.fixed().c - v.fixed().c,
        u.minus(v).fixed().d == u.fixed().d - v.fixed().d,
{
    if u.k <= v.k {
        let j = (v.k - u.k) as nat;
        let t = (ref_scale() - v.k) as nat;
        let s = (ref_scale() - u.k) as nat;
        lemma_pow2_adds(j, t);
        lemma_shift_scale(u.a, -v.a, j, t, s);
        lemma_shift_scale(u.b, -v.b, j, t, s);
        lemma_shift_scale(u.c, -v.c, j, t, s);
        lemma_shift_scale(u.d, -v.d, j, t, s);
        assert((u.a * pow2i(j) + (-v.a)) * pow2i(t) == (u.a * pow2i(j) - v.a) * pow2i(t)) by (nonlinear_arith);
        assert((u.b * pow2i(j) + (-v.b)) * pow2i(t) == (u.b * pow2i(j) - v.b) * pow2i(t)) by (nonlinear_arith);
        assert((u.c * pow2i(j) + (-v.c)) * pow2i(t) == (u.c * pow2i(j) - v.c) * pow2i(t)) by (nonlinear_arith);
        assert((u.d * pow2i(j) + (-v.d)) * pow2i(t) == (u.d * pow2i(j) - v.d) * pow2i(t)) by (nonlinear_arith);
        assert((-v.a) * pow2i(t) == -(v.a * pow2i(t))) by (nonlinear_arith);
        assert((-v.b) * pow2i(t) == -(v.b * pow2i(t))) by (nonlinear_arith);
        assert((-v.c) * pow2i(t) == -(v.c * pow2i(t))) by (nonlinear_arith);
        assert((-v.d) * pow2i(t) == -(v.d * pow2i(t))) by (nonlinear_arith);
    } else {
        let j = (u.k - v.k) as nat;
        let t = (ref_scale() - u.k) as nat;
        let s = (ref_scale() - v.k) as nat;
        lemma_pow2_adds(j, t);
        lemma_shift_scale(-v.a, u.a, j, t, s);
        lemma_shift_scale(-v.b, u.b, j, t, s);
        lemma_shift_scale(-v.c, u.c, j, t, s);
        lemma_shift_scale(-v.d, u.d, j, t, s);
        assert(((-v.a) * pow2i(j) + u.a) * pow2i(t) == (u.a - v.a * pow2i(j)) * pow2i(t)) by (nonlinear_arith);
        assert(((-v.b) * pow2i(j) + u.b) * pow2i(t) == (u.b - v.b * pow2i(j)) * pow2i(t)) by (nonlinear_arith);
        assert(((-v.c) * pow2i(j) + u.c) * pow2i(t) == (u.c - v.c * pow2i(j)) * pow2i(t)) by (nonlinear_arith);
        assert(((-v.d) * pow2i(j) + u.d) * pow2i(t) == (u.d - v.d * pow2i(j)) * pow2i(t)) by (nonlinear_arith);
        assert((-v.a) * pow2i(s) == -(v.a * pow2i(s))) by (nonlinear_arith);
        assert((-v.b) * pow2i(s) == -(v.b * pow2i(s))) by (nonlinear_arith);
        assert((-v.c) * pow2i(s) == -(v.c * pow2i(s))) by (nonlinear_arith);
        assert((-v.d) * pow2i(s) == -(v.d * pow2i(s))) by (nonlinear_arith);
    }
}

/// `fixed` turns `doubled` into componentwise integer doubling.
pub proof fn lemma_fixed_doubled(u: Quartic)
    requires
        u.k <= ref_scale(),
    ensures
        u.doubled().fixed().a == 2 * u.fixed().a,
        u.doubled().fixed().b == 2 * u.fixed().b,
        u.doubled().fixed().c == 2 * u.fixed().c,
        u.doubled().fixed().d == 2 * u.fixed().d,
{
    let t = (ref_scale() - u.k) as nat;
    assert((2 * u.a) * pow2i(t) == 2 * (u.a * pow2i(t))) by (nonlinear_arith);
    assert((2 * u.b) * pow2i(t) == 2 * (u.b * pow2i(t))) by (nonlinear_arith);
    assert((2 * u.c) * pow2i(t) == 2 * (u.c * pow2i(t))) by (nonlinear_arith);
    assert((2 * u.d) * pow2i(t) == 2 * (u.d * pow2i(t))) by (nonlinear_arith);
}

/// `fixed` turns `halved` into exact division by two.
pub proof fn lemma_fixed_halved(u: Quartic)
    requires
        u.k + 1 <= ref_scale(),
    ensures
        2 * u.halved().fixed().a == u.fixed().a,
        2 * u.halved().fixed().b == u.fixed().b,
        2 * u.halved().fixed().c == u.fixed().c,
        2 * u.halved().fixed().d == u.fixed().d,
{
    let t = (ref_scale() - u.k - 1) as nat;
    lemma_pow2_unfold((t + 1) as nat);
    assert(2 * (u.a * pow2i(t)) == u.a * (2 * pow2i(t))) by (nonlinear_arith);
    assert(2 * (u.b * pow2i(t)) == u.b * (2 * pow2i(t))) by (nonlinear_arith);
    assert(2 * (u.c * pow2i(t)) == u.c * (2 * pow2i(t))) by (nonlinear_arith);
    assert(2 * (u.d * pow2i(t)) == u.d * (2 * pow2i(t))) by (nonlinear_arith);
}

proof fn lemma_eq_at_scale(x: int, y: int, kx: nat, ky: nat)
    requires
        kx <= ref_scale(),
        ky <= ref_scale(),
        x * pow2i((ref_scale() - kx) as nat) == y * pow2i((ref_scale() - ky) as nat),
    ensures
        x * pow2i(ky) == y * pow2i(kx),
{
    let tx = (ref_scale() - kx) as nat;
    let ty = (ref_scale() - ky) as nat;
    lemma_pow2_adds(tx, kx);
    lemma_pow2_adds(ty, ky);
    lemma_pow2_pos(ref_scale());
    assert(x * pow2i(ky) * pow2i(ref_scale()) == y * pow2i(kx) * pow2i(ref_scale())) by (nonlinear_arith)
        requires
            x * pow2i(tx) == y * pow2i(ty),
            pow2i(tx) * pow2i(kx) == pow2i(ref_scale()),
            pow2i(ty) * pow2i(ky) == pow2i(ref_scale()),
    ;
    assert(x * pow2i(ky) == y * pow2i(kx)) by (nonlinear_arith)
        requires
            x * pow2i(ky) * pow2i(ref_scale()) == y * pow2i(kx) * pow2i(ref_scale()),
            pow2i(ref_scale()) > 0,
    ;
}

proof fn lemma_trans_comp(x: int, y: int, z: int, p: nat, q: nat, r: nat)
    requires
        x * pow2i(q) == y * pow2i(p),
        y * pow2i(r) == z * pow2i(q),
    ensures
        x * pow2i(r) == z * pow2i(p),
{
    lemma_pow2_pos(q);
    assert(x * pow2i(r) * pow2i(q) == z * pow2i(p) * pow2i(q)) by (nonlinear_arith)
        requires
            x * pow2i(q) == y * pow2i(p),
            y * pow2i(r) == z * pow2i(q),
    ;
    assert(x * pow2i(r) == z * pow2i(p)) by (nonlinear_arith)
        requires
            x * pow2i(r) * pow2i(q) == z * pow2i(p) * pow2i(q),
            pow2i(q) > 0,
    ;
}

/// Value equality of scalars is transitive.
pub proof fn lemma_qeq_trans(u: Quartic, v: Quartic, w: Quartic)
    requires
        qeq(u, v),
        qeq(v, w),
    ensures
        qeq(u, w),
{
    lemma_trans_comp(u.a, v.a, w.a, u.k, v.k, w.k);
    lemma_trans_comp(u.b, v.b, w.b, u.k, v.k, w.k);
    lemma_trans_comp(u.c, v.c, w.c, u.k, v.k, w.k);
    lemma_trans_comp(u.d, v.d, w.d, u.k, v.k, w.k);
}

/// Two scalars with the same reference-scale form denote the same value.
pub proof fn lemma_qeq_from_fixed(u: Quartic, v: Quartic)
    requires
        u.k <= ref_scale(),
        v.k <= ref_scale(),
        u.fixed() == v.fixed(),
    ensures
        qeq(u, v),
{
    lemma_eq_at_scale(u.a, v.a, u.k, v.k);
    lemma_eq_at_scale(u.b, v.b, u.k, v.k);
    lemma_eq_at_scale(u.c, v.c, u.k, v.k);
    lemma_eq_at_scale(u.d, v.d, u.k, v.k);
}

/// Numerator bounds survive `plus`, growing by one bit.
pub proof fn lemma_bnd_plus(u: Quartic, v: Quartic, e: nat)
    requires
        u.bnd(e),
        v.bnd(e),
    ensures
        u.plus(v).bnd((e + 1) as nat),
        u.plus(v).k == if u.k <= v.k { v.k } else { u.k },
{
    if u.k <= v.k {
        let j = (v.k - u.k) as nat;
        lemma_mul_pow2_bound(u.a, (e + u.k) as nat, j);
        lemma_mul_pow2_bound(u.b, (e + u.k) as nat, j);
        lemma_mul_pow2_bound(u.c, (e + u.k) as nat, j);
        lemma_mul_pow2_bound(u.d, (e + u.k) as nat, j);
        lemma_pow2_unfold((e + 1 + v.k) as nat);
    } else {
        let j = (u.k - v.k) as nat;
        lemma_mul_pow2_bound(v.a, (e + v.k) as nat, j);
        lemma_mul_pow2_bound(v.b, (e + v.k) as nat, j);
        lemma_mul_pow2_bound(v.c, (e + v.k) as nat, j);
        lemma_mul_pow2_bound(v.d, (e + v.k) as nat, j);
        lemma_pow2_unfold((e + 1 + u.k) as nat);
    }
}

/// Numerator bounds survive `minus`, growing by one bit.
pub proof fn lemma_bnd_minus(u: Quartic, v: Quartic, e: nat)
    requires
        u.bnd(e),
        v.bnd(e),
    ensures
        u.minus(v).bnd((e + 1) as nat),
        u.minus(v).k == if u.k <= v.k { v.k } else { u.k },
{
    if u.k <= v.k {
        let j = (v.k - u.k) as nat;
        lemma_mul_pow2_bound(u.a, (e + u.k) as nat, j);
        lemma_mul_pow2_bound(u.b, (e + u.k) as nat, j);
        lemma_mul_pow2_bound(u.c, (e + u.k) as nat, j);
        lemma_mul_pow2_bound(u.d, (e + u.k) as nat, j);
        lemma_pow2_unfold((e + 1 + v.k) as nat);
    } else {
        let j = (u.k - v.k) as nat;
        lemma_mul_pow2_bound(v.a, (e + v.k) as nat, j);
        lemma_mul_pow2_bound(v.b, (e + v.k) as nat, j);
        lemma_mul_pow2_bound(v.c, (e + v.k) as nat, j);
        lemma_mul_pow2_bound(v.d, (e + v.k) as nat, j);
        lemma_pow2_unfold((e + 1 + u.k) as nat);
    }
}

/// Numerator bounds survive `halved`, tightening by one bit.
pub proof fn lemma_bnd_halved(u: Quartic, e: nat)
    requires
        u.bnd((e + 1) as nat),
    ensures
        u.halved().bnd(e),
{
    assert(e + 1 + u.k == e + u.halved().k);
}

/// Loosening a numerator bound.
pub proof fn lemma_bnd_mono(u: Quartic, e1: nat, e2: nat)
    requires
        u.bnd(e1),
        e1 <= e2,
    ensures
        u.bnd(e2),
{
    lemma_pow2_le((e1 + u.k) as nat, (e2 + u.k) as nat);
}

/// A scale-relative bound implies an outright numerator bound.
pub proof fn lemma_bnd_flat(u: Quartic, e: nat, m: nat)
    requires
        u.bnd(e),
        e + u.k <= m,
    ensures
        u.flat(m),
{
    lemma_pow2_le((e + u.k) as nat, m);
}

/// Numerator bounds survive `times`, growing by four bits.
pub proof fn lemma_bnd_times(u: Quartic, v: Quartic, eu: nat, ev: nat)
    requires
        u.bnd(eu),
        v.bnd(ev),
    ensures
        u.times(v).bnd((eu + ev + 4) as nat),
{
    let mu = pow2i((eu + u.k) as nat);
    let mv = pow2i((ev + v.k) as nat);
    let m = mu * mv;
    lemma_abs_mul(u.a, v.a, mu, mv);
    lemma_abs_mul(u.a, v.b, mu, mv);
    lemma_abs_mul(u.a, v.c, mu, mv);
    lemma_abs_mul(u.a, v.d, mu, mv);
    lemma_abs_mul(u.b, v.a, mu, mv);
    lemma_abs_mul(u.b, v.b, mu, mv);
    lemma_abs_mul(u.b, v.c, mu, mv);
    lemma_abs_mul(u.b, v.d, mu, mv);
    lemma_abs_mul(u.c, v.a, mu, mv);
    lemma_abs_mul(u.c, v.b, mu, mv);
    lemma_abs_mul(u.c, v.c, mu, mv);
    lemma_abs_mul(u.c, v.d, mu, mv);
    lemma_abs_mul(u.d, v.a, mu, mv);
    lemma_abs_mul(u.d, v.b, mu, mv);
    lemma_abs_mul(u.d, v.c, mu, mv);
    lemma_abs_mul(u.d, v.d, mu, mv);
    lemma_pow2_adds((eu + u.k) as nat, (ev + v.k) as nat);
    lemma_pow2_pos((eu + u.k + ev + v.k) as nat);
    lemma_pow2_adds((eu + u.k + ev + v.k) as nat, 7);
    lemma2_to64();
    assert(pow2i((eu + u.k + ev + v.k + 7) as nat) == 128 * m);
    assert(eu + u.k + ev + v.k + 7 == (eu + ev + 4) + u.times(v).k);
}

/// Executable power of two.
pub fn pow2_i64(e: u32) -> (r: i64)
    requires
        e <= 62,
    ensures
        r == pow2(e as nat),
{
    proof {
        lemma2_to64();
    }
    let mut r: i64 = 1;
    let mut i: u32 = 0;
    while i < e
        invariant
            i <= e,
            e <= 62,
            r == pow2(i as nat),
        decreases e - i,
    {
        proof {
            lemma_pow2_unfold((i + 1) as nat);
            lemma_pow2_le((i + 1) as nat, 62);
            lemma2_to64_rest();
        }
        r = 2 * r;
        i = i + 1;
    }
    r
}

impl Coord {
    /// The scalar 0.
    pub fn zero() -> (r: Coord)
        ensures
            r@ == (Quartic { a: 0, b: 0, c: 0, d: 0, k: 0 }),
            r@.bnd(0),
    {
        proof {
            lemma_pow2_pos(0);
        }
        Coord { a: 0, b: 0, c: 0, d: 0, k: 0 }
    }

    /// The integer `n` as a scalar.
    pub fn from_int(n: i64) -> (r: Coord)
        ensures
            r@ == (Quartic { a: n as int, b: 0, c: 0, d: 0, k: 0 }),
    {
        Coord { a: n, b: 0, c: 0, d: 0, k: 0 }
    }

    /// The golden ratio phi = (1 + sqrt(5)) / 2.
    pub fn phi() -> (r: Coord)
        ensures
            r@ == (Quartic { a: 1, b: 1, c: 0, d: 0, k: 1 }),
            r@.bnd(0),
    {
        proof {
            lemma2_to64();
        }
        Coord { a: 1, b: 1, c: 0, d: 0, k: 1 }
    }

    /// The height constant h = sqrt(5 + 2*sqrt(5)) / 2 == phi^2 * sin36.
    pub fn h() -> (r: Coord)
        ensures
            r@ == (Quartic { a: 0, b: 0, c: 3, d: 1, k: 1 }),
            r@.bnd(1),
    {
        proof {
            lemma2_to64();
        }
        Coord { a: 0, b: 0, c: 3, d: 1, k: 1 }
    }

    /// Exact sum.
    pub fn add(&self, o: &Coord) -> (r: Coord)
        requires
            self@.bnd(28),
            o@.bnd(28),
            self@.k <= 32,
            o@.k <= 32,
        ensures
            r@ == self@.plus(o@),
    {
        proof {
            lemma2_to64();
            lemma2_to64_rest();
        }
        if self.k <= o.k {
            let m: i64 = pow2_i64(o.k - self.k);
            proof {
                let j = (o.k - self.k) as nat;
                lemma_mul_pow2_bound(self.a as int, (28 + self.k) as nat, j);
                lemma_mul_pow2_bound(self.b as int, (28 + self.k) as nat, j);
                lemma_mul_pow2_bound(self.c as int, (28 + self.k) as nat, j);
                lemma_mul_pow2_bound(self.d as int, (28 + self.k) as nat, j);
                lemma_pow2_le((28 + o.k) as nat, 60);
            }
            Coord { a: self.a * m + o.a, b: self.b * m + o.b, c: self.c * m + o.c, d: self.d * m + o.d, k: o.k }
        } else {
            let m: i64 = pow2_i64(self.k - o.k);
            proof {
                let j = (self.k - o.k) as nat;
                lemma_mul_pow2_bound(o.a as int, (28 + o.k) as nat, j);
                lemma_mul_pow2_bound(o.b as int, (28 + o.k) as nat, j);
                lemma_mul_pow2_bound(o.c as int, (28 + o.k) as nat, j);
                lemma_mul_pow2_bound(o.d as int, (28 + o.k) as nat, j);
                lemma_pow2_le((28 + self.k) as nat, 60);
            }
            Coord { a: self.a + o.a * m, b: self.b + o.b * m, c: self.c + o.c * m, d: self.d + o.d * m, k: self.k }
        }
    }

    /// Exact difference.
    pub fn sub(&self, o: &Coord) -> (r: Coord)
        requires
            self@.bnd(28),
            o@.bnd(28),
            self@.k <= 32,
            o@.k <= 32,
        ensures
            r@ == self@.minus(o@),
    {
        proof {
            lemma2_to64();
            lemma2_to64_rest();
        }
        if self.k <= o.k {
            let m: i64 = pow2_i64(o.k - self.k);
            proof {
                let j = (o.k - self.k) as nat;
                lemma_mul_pow2_bound(self.a as int, (28 + self.k) as nat, j);
                lemma_mul_pow2_bound(self.b as int, (28 + self.k) as nat, j);
                lemma_mul_pow2_bound(self.c as int, (28 + self.k) as nat, j);
                lemma_mul_pow2_bound(self.d as int, (28 + self.k) as nat, j);
                lemma_pow2_le((28 + o.k) as nat, 60);
            }
            Coord { a: self.a * m - o.a, b: self.b * m - o.b, c: self.c * m - o.c, d: self.d * m - o.d, k: o.k }
        } else {
            let m: i64 = pow2_i64(self.k - o.k);
            proof {
                let j = (self.k - o.k) as nat;
                lemma_mul_pow2_bound(o.a as int, (28 + o.k) as nat, j);
                lemma_mul_pow2_bound(o.b as int, (28 + o.k) as nat, j);
                lemma_mul_pow2_bound(o.c as int, (28 + o.k) as nat, j);
                lemma_mul_pow2_bound(o.d as int, (28 + o.k) as nat, j);
                lemma_pow2_le((28 + self.k) as nat, 60);
                assert((-(o.a as int)) * pow2i(j) == -(o.a as int * pow2i(j))) by (nonlinear_arith);
                assert((-(o.b as int)) * pow2i(j) == -(o.b as int * pow2i(j))) by (nonlinear_arith);
                assert((-(o.c as int)) * pow2i(j) == -(o.c as int * pow2i(j))) by (nonlinear_arith);
                assert((-(o.d as int)) * pow2i(j) == -(o.d as int * pow2i(j))) by (nonlinear_arith);
            }
            Coord { a: self.a - o.a * m, b: self.b - o.b * m, c: self.c - o.c * m, d: self.d - o.d * m, k: self.k }
        }
    }

    /// Exact halving.
    pub fn half(&self) -> (r: Coord)
        requires
            self@.k < 60,
        ensures
            r@ == self@.halved(),
    {
        Coord { a: self.a, b: self.b, c: self.c, d: self.d, k: self.k + 1 }
    }

    /// Exact negation.
    pub fn neg(&self) -> (r: Coord)
        requires
            self@.bnd(40),
            self@.k <= 20,
        ensures
            r@ == self@.negate(),
    {
        proof {
            lemma2_to64();
            lemma2_to64_rest();
            lemma_pow2_le((40 + self.k) as nat, 60);
        }
        Coord { a: -self.a, b: -self.b, c: -self.c, d: -self.d, k: self.k }
    }

    /// Exact product.
    pub fn mul(&self, o: &Coord) -> (r: Coord)
        requires
            self@.flat(37),
            o@.flat(18),
            self@.k <= 28,
            o@.k <= 10,
        ensures
            r@ == self@.times(o@),
    {
        proof {
            lemma2_to64();
            lemma2_to64_rest();
            lemma_pow2_adds(37, 18);
            lemma_abs_mul(self.a as int, o.a as int, pow2i(37), pow2i(18));
            lemma_abs_mul(self.a as int, o.b as int, pow2i(37), pow2i(18));
            lemma_abs_mul(self.a as int, o.c as int, pow2i(37), pow2i(18));
            lemma_abs_mul(self.a as int, o.d as int, pow2i(37), pow2i(18));
            lemma_abs_mul(self.b as int, o.a as int, pow2i(37), pow2i(18));
            lemma_abs_mul(self.b as int, o.b as int, pow2i(37), pow2i(18));
            lemma_abs_mul(self.b as int, o.c as int, pow2i(37), pow2i(18));
            lemma_abs_mul(self.b as int, o.d as int, pow2i(37), pow2i(18));
            lemma_abs_mul(self.c as int, o.a as int, pow2i(37), pow2i(18));
            lemma_abs_mul(self.c as int, o.b as int, pow2i(37), pow2i(18));
            lemma_abs_mul(self.c as int, o.c as int, pow2i(37), pow2i(18));
            lemma_abs_mul(self.c as int, o.d as int, pow2i(37), pow2i(18));
            lemma_abs_mul(self.d as int, o.a as int, pow2i(37), pow2i(18));
            lemma_abs_mul(self.d as int, o.b as int, pow2i(37), pow2i(18));
            lemma_abs_mul(self.d as int, o.c as int, pow2i(37), pow2i(18));
            lemma_abs_mul(self.d as int, o.d as int, pow2i(37), pow2i(18));
        }
        let p1: i64 = self.c * o.c + 5 * (self.d * o.d);
        let q1: i64 = self.c * o.d + self.d * o.c;
        let ra: i64 = 8 * (self.a * o.a + 5 * (self.b * o.b)) + 5 * p1 - 5 * q1;
        let rb: i64 = 8 * (self.a * o.b + self.b * o.a) + 5 * q1 - p1;
        let rc: i64 = 8 * (self.a * o.c + 5 * (self.b * o.d) + self.c * o.a + 5 * (self.d * o.b));
        let rd: i64 = 8 * (self.a * o.d + self.b * o.c + self.c * o.b + self.d * o.a);
        Coord { a: ra, b: rb, c: rc, d: rd, k: self.k + o.k + 3 }
    }
}

} // verus!
