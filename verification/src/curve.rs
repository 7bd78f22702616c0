//! Short-Weierstrass elliptic curves over an odd-modulus field, with
//! affine points and the group operations ECDSA and key agreement need.
//!
//! The point arithmetic is specified by pure functions over reduced field
//! values (`spec_add`, `spec_mul`); every executable operation's contract
//! says its result is exactly the specified one. Where a division's
//! denominator is not invertible — impossible over a prime field, which is
//! the intended use — the operation yields the point at infinity, and the
//! specification says so too.

use vstd::prelude::*;
use vstd::arithmetic::power2::pow2;
use vstd::arithmetic::div_mod::{lemma_mod_bound, lemma_basic_div};
use crate::uint::{Wide, uval, u_from_u64, u_bit, u_bit_len, u_eq, u_lt};
use crate::ring::ModRing;
use crate::element::ModRingElement;
use crate::modmath::{mod_inv_exists, inv_f, lemma_div_is_mul_inv};
use crate::error::Error;

verus! {

/// Field addition of reduced values.
pub open spec fn f_add(p: nat, x: nat, y: nat) -> nat {
    (x + y) % p
}

/// Field subtraction of reduced values.
pub open spec fn f_sub(p: nat, x: nat, y: nat) -> nat {
    (((p + x - y) as int) % (p as int)) as nat
}

/// Field multiplication of reduced values.
pub open spec fn f_mul(p: nat, x: nat, y: nat) -> nat {
    (x * y) % p
}

/// The curve equation's right-hand side, `x³ + ax + b`, in the shape the
/// checks compute it: `x·x·x + a·x + b`, each step reduced.
pub open spec fn curve_rhs(p: nat, a: nat, b: nat, x: nat) -> nat {
    f_add(p, f_add(p, f_mul(p, f_mul(p, x, x), x), f_mul(p, a, x)), b)
}

/// `(x, y)` satisfies the curve equation.
pub open spec fn on_curve(p: nat, a: nat, b: nat, x: nat, y: nat) -> bool {
    f_mul(p, y, y) == curve_rhs(p, a, b, x)
}

/// Affine point addition over the field, `None` standing for the point at
/// infinity. Follows the short-Weierstrass case analysis; a denominator
/// without an inverse (never the case over a prime field) gives infinity.
pub open spec fn spec_add(p: nat, a: nat, q1: Option<(nat, nat)>, q2: Option<(nat, nat)>) ->
    Option<(nat, nat)> {
    match (q1, q2) {
        (None, _) => q2,
        (_, None) => q1,
        (Some((x1, y1)), Some((x2, y2))) => {
            if x1 == x2 {
                if y1 == f_sub(p, 0, y2) {
                    None
                } else {
                    let den = f_mul(p, 2, y1);
                    if mod_inv_exists(den, p) {
                        let num = f_add(p, f_mul(p, 3, f_mul(p, x1, x1)), a);
                        let lam = f_mul(p, num, inv_f(p, den));
                        let x3 = f_sub(p, f_mul(p, lam, lam), f_mul(p, 2, x1));
                        let y3 = f_sub(p, f_mul(p, lam, f_sub(p, x1, x3)), y1);
                        Some((x3, y3))
                    } else {
                        None
                    }
                }
            } else {
                let den = f_sub(p, x2, x1);
                if mod_inv_exists(den, p) {
                    let num = f_sub(p, y2, y1);
                    let lam = f_mul(p, num, inv_f(p, den));
                    let x3 = f_sub(p, f_sub(p, f_mul(p, lam, lam), x1), x2);
                    let y3 = f_sub(p, f_mul(p, lam, f_sub(p, x1, x3)), y1);
                    Some((x3, y3))
                } else {
                    None
                }
            }
        },
    }
}

/// Point negation.
pub open spec fn spec_neg(p: nat, q: Option<(nat, nat)>) -> Option<(nat, nat)> {
    match q {
        None => None,
        Some((x, y)) => Some((x, f_sub(p, 0, y))),
    }
}

/// Scalar multiplication as the double-and-add loop computes it: bits of
/// `k` from least to most significant, accumulating into `acc`.
pub open spec fn spec_mul_acc(p: nat, a: nat, k: nat, q: Option<(nat, nat)>, acc: Option<(
    nat,
    nat,
)>) -> Option<(nat, nat)>
    decreases k,
{
    if k == 0 {
        acc
    } else {
        spec_mul_acc(
            p,
            a,
            k / 2,
            spec_add(p, a, q, q),
            if k % 2 == 1 {
                spec_add(p, a, acc, q)
            } else {
                acc
            },
        )
    }
}

/// Scalar multiplication `[k]·q`.
pub open spec fn spec_mul(p: nat, a: nat, k: nat, q: Option<(nat, nat)>) -> Option<(nat, nat)> {
    spec_mul_acc(p, a, k, q, None)
}

/// A short-Weierstrass curve: base and scalar fields, the coefficients,
/// the cofactor and the generator.
#[derive(Clone, Copy)]
pub struct EllipticCurve {
    pub base_field: ModRing,
    pub scalar_field: ModRing,
    pub a: ModRingElement,
    pub b: ModRingElement,
    pub cofactor: Wide,
    pub gx: ModRingElement,
    pub gy: ModRingElement,
}

/// Affine coordinates or the point at infinity.
#[derive(Clone, Copy)]
pub enum Coordinates {
    Infinity,
    Affine(ModRingElement, ModRingElement),
}

/// A point of a particular curve.
#[derive(Clone, Copy)]
pub struct EllipticCurvePoint {
    pub curve: EllipticCurve,
    pub coordinates: Coordinates,
}

impl EllipticCurve {
    /// Base field modulus.
    pub open spec fn pv(self) -> nat {
        self.base_field.p()
    }

    /// Group order (scalar field modulus).
    pub open spec fn nv(self) -> nat {
        self.scalar_field.p()
    }

    /// Coefficient `a`.
    pub open spec fn av(self) -> nat {
        self.a.v()
    }

    /// Coefficient `b`.
    pub open spec fn bv(self) -> nat {
        self.b.v()
    }

    /// Generator coordinates.
    pub open spec fn gv(self) -> (nat, nat) {
        (self.gx.v(), self.gy.v())
    }

    /// Cofactor value.
    pub open spec fn hv(self) -> nat {
        uval(self.cofactor)
    }

    /// Structural well-formedness: consistent fields and coefficients, a
    /// non-singular equation, a generator on the curve, and distinct
    /// modulus and order.
    pub open spec fn wf0(self) -> bool {
        &&& self.base_field.wf()
        &&& self.scalar_field.wf()
        &&& self.pv() > 27
        &&& self.a.wf() && self.a.p() == self.pv()
        &&& self.b.wf() && self.b.p() == self.pv()
        &&& self.gx.wf() && self.gx.p() == self.pv()
        &&& self.gy.wf() && self.gy.p() == self.pv()
        &&& f_add(
            self.pv(),
            f_mul(self.pv(), 4, f_mul(self.pv(), f_mul(self.pv(), self.av(), self.av()),
            self.av())),
            f_mul(self.pv(), 27, f_mul(self.pv(), self.bv(), self.bv())),
        ) != 0
        &&& on_curve(self.pv(), self.av(), self.bv(), self.gx.v(), self.gy.v())
        &&& self.pv() != self.nv()
    }

    /// Full well-formedness: additionally, the generator's order is the
    /// scalar field's modulus.
    pub open spec fn wf(self) -> bool {
        &&& self.wf0()
        &&& spec_mul(self.pv(), self.av(), self.nv(), Some(self.gv())) is None
    }

    /// The curves agree in every defining value.
    pub open spec fn same_curve(self, other: EllipticCurve) -> bool {
        &&& self.pv() == other.pv()
        &&& self.nv() == other.nv()
        &&& self.av() == other.av()
        &&& self.bv() == other.bv()
        &&& self.gv() == other.gv()
        &&& self.hv() == other.hv()
    }

    /// The base field.
    pub fn base_field(&self) -> (r: &ModRing)
        ensures
            *r == self.base_field,
    {
        &self.base_field
    }

    /// The scalar field.
    pub fn scalar_field(&self) -> (r: &ModRing)
        ensures
            *r == self.scalar_field,
    {
        &self.scalar_field
    }

    /// Coefficient `a` as a field element.
    pub fn a(&self) -> (r: ModRingElement)
        requires
            self.wf0(),
        ensures
            r.wf(),
            r.p() == self.pv(),
            r.v() == self.av(),
    {
        self.a
    }

    /// Coefficient `b` as a field element.
    pub fn b(&self) -> (r: ModRingElement)
        requires
            self.wf0(),
        ensures
            r.wf(),
            r.p() == self.pv(),
            r.v() == self.bv(),
    {
        self.b
    }

    /// The cofactor.
    pub fn cofactor(&self) -> (r: Wide)
        ensures
            uval(r) == self.hv(),
    {
        crate::uint::u_dup(&self.cofactor)
    }

    /// The generator point.
    pub fn generator(&self) -> (r: EllipticCurvePoint)
        requires
            self.wf0(),
        ensures
            r.wf(),
            r.curve == *self,
            r.pt() == Some(self.gv()),
    {
        EllipticCurvePoint { curve: *self, coordinates: Coordinates::Affine(self.gx, self.gy) }
    }

    /// The point at infinity.
    pub fn infinity(&self) -> (r: EllipticCurvePoint)
        requires
            self.wf0(),
        ensures
            r.wf(),
            r.curve == *self,
            r.pt() is None,
    {
        EllipticCurvePoint { curve: *self, coordinates: Coordinates::Infinity }
    }
}

impl EllipticCurvePoint {
    /// The point as reduced affine values, `None` for infinity.
    pub open spec fn pt(self) -> Option<(nat, nat)> {
        match self.coordinates {
            Coordinates::Infinity => None,
            Coordinates::Affine(x, y) => Some((x.v(), y.v())),
        }
    }

    /// Point well-formedness: its curve is structurally sound and its
    /// coordinates are elements of the curve's base field.
    pub open spec fn wf(self) -> bool {
        &&& self.curve.wf0()
        &&& match self.coordinates {
            Coordinates::Infinity => true,
            Coordinates::Affine(x, y) => {
                &&& x.wf() && x.p() == self.curve.pv()
                &&& y.wf() && y.p() == self.curve.pv()
            },
        }
    }

    /// The curve this point belongs to.
    pub fn curve(&self) -> (r: &EllipticCurve)
        ensures
            *r == self.curve,
    {
        &self.curve
    }

    /// Whether this is the point at infinity.
    pub fn is_infinity(&self) -> (r: bool)
        ensures
            r == (self.pt() is None),
    {
        match self.coordinates {
            Coordinates::Infinity => true,
            Coordinates::Affine(_, _) => false,
        }
    }

    /// The x-coordinate, if affine.
    pub fn x(&self) -> (r: Option<ModRingElement>)
        requires
            self.wf(),
        ensures
            match r {
                Some(e) => {
                    &&& self.pt() is Some
                    &&& e.wf()
                    &&& e.p() == self.curve.pv()
                    &&& e.v() == self.pt().unwrap().0
                },
                None => self.pt() is None,
            },
    {
        match self.coordinates {
            Coordinates::Infinity => None,
            Coordinates::Affine(x, _) => Some(x),
        }
    }

    /// The y-coordinate, if affine.
    pub fn y(&self) -> (r: Option<ModRingElement>)
        requires
            self.wf(),
        ensures
            match r {
                Some(e) => {
                    &&& self.pt() is Some
                    &&& e.wf()
                    &&& e.p() == self.curve.pv()
                    &&& e.v() == self.pt().unwrap().1
                },
                None => self.pt() is None,
            },
    {
        match self.coordinates {
            Coordinates::Infinity => None,
            Coordinates::Affine(_, y) => Some(y),
        }
    }

    /// The Montgomery forms of the coordinates, `None` for infinity.
    pub fn as_monty(&self) -> (r: Option<(Wide, Wide)>)
        ensures
            r is Some <==> self.pt() is Some,
    {
        match &self.coordinates {
            Coordinates::Infinity => None,
            Coordinates::Affine(x, y) => Some((x.as_montgomery(), y.as_montgomery())),
        }
    }

    /// Point addition, by the affine case analysis.
    pub fn add(&self, other: &EllipticCurvePoint) -> (r: EllipticCurvePoint)
        requires
            self.wf(),
            other.wf(),
            self.curve.same_curve(other.curve),
        ensures
            r.wf(),
            r.curve == self.curve,
            r.pt() == spec_add(self.curve.pv(), self.curve.av(), self.pt(), other.pt()),
    {
        let ghost p = self.curve.pv();
        let ghost av = self.curve.av();
        match (&self.coordinates, &other.coordinates) {
            (Coordinates::Infinity, _) => {
                EllipticCurvePoint { curve: self.curve, coordinates: other.coordinates }
            },
            (_, Coordinates::Infinity) => *self,
            (Coordinates::Affine(x1, y1), Coordinates::Affine(x2, y2)) => {
                if x1.eq_elem(x2) {
                    let y2n = y2.neg();
                    proof {
                        assert(y2n.v() == f_sub(p, 0, y2.v()));
                    }
                    if y1.eq_elem(&y2n) {
                        EllipticCurvePoint {
                            curve: self.curve,
                            coordinates: Coordinates::Infinity,
                        }
                    } else {
                        // doubling: λ = (3x² + a) / (2y)
                        let three = self.curve.base_field.from_u64(3);
                        let two = self.curve.base_field.from_u64(2);
                        let num = three.mul(&x1.mul(x1)).add(&self.curve.a);
                        let den = two.mul(y1);
                        match num.div(&den) {
                            None => {
                                EllipticCurvePoint {
                                    curve: self.curve,
                                    coordinates: Coordinates::Infinity,
                                }
                            },
                            Some(lam) => {
                                proof {
                                    lemma_div_is_mul_inv(p, num.v(), den.v(), lam.v());
                                }
                                let x3 = lam.mul(&lam).sub(&two.mul(x1));
                                let y3 = lam.mul(&x1.sub(&x3)).sub(y1);
                                EllipticCurvePoint {
                                    curve: self.curve,
                                    coordinates: Coordinates::Affine(x3, y3),
                                }
                            },
                        }
                    }
                } else {
                    // general: λ = (y2 − y1) / (x2 − x1)
                    let num = y2.sub(y1);
                    let den = x2.sub(x1);
                    match num.div(&den) {
                        None => {
                            EllipticCurvePoint {
                                curve: self.curve,
                                coordinates: Coordinates::Infinity,
                            }
                        },
                        Some(lam) => {
                            proof {
                                lemma_div_is_mul_inv(p, num.v(), den.v(), lam.v());
                            }
                            let x3 = lam.mul(&lam).sub(x1).sub(x2);
                            let y3 = lam.mul(&x1.sub(&x3)).sub(y1);
                            EllipticCurvePoint {
                                curve: self.curve,
                                coordinates: Coordinates::Affine(x3, y3),
                            }
                        },
                    }
                }
            },
        }
    }

    /// Point negation.
    pub fn neg(&self) -> (r: EllipticCurvePoint)
        requires
            self.wf(),
        ensures
            r.wf(),
            r.curve == self.curve,
            r.pt() == spec_neg(self.curve.pv(), self.pt()),
    {
        match &self.coordinates {
            Coordinates::Infinity => *self,
            Coordinates::Affine(x, y) => {
                let yn = y.neg();
                EllipticCurvePoint {
                    curve: self.curve,
                    coordinates: Coordinates::Affine(*x, yn),
                }
            },
        }
    }

    /// Point subtraction: `self + (−other)`.
    pub fn sub(&self, other: &EllipticCurvePoint) -> (r: EllipticCurvePoint)
        requires
            self.wf(),
            other.wf(),
            self.curve.same_curve(other.curve),
        ensures
            r.wf(),
            r.curve == self.curve,
            r.pt() == spec_add(self.curve.pv(), self.curve.av(), self.pt(), spec_neg(
                self.curve.pv(), other.pt())),
    {
        let n = other.neg();
        self.add(&n)
    }

    /// Coordinate equality of two points of the same curve.
    pub fn eq_point(&self, other: &EllipticCurvePoint) -> (r: bool)
        requires
            self.wf(),
            other.wf(),
            self.curve.same_curve(other.curve),
        ensures
            r == (self.pt() == other.pt()),
    {
        match (&self.coordinates, &other.coordinates) {
            (Coordinates::Infinity, Coordinates::Infinity) => true,
            (Coordinates::Affine(ax, ay), Coordinates::Affine(bx, by)) => {
                ax.eq_elem(bx) && ay.eq_elem(by)
            },
            _ => false,
        }
    }

    /// Selects the second point when the flag is set. Constant-time only
    /// when both points have the same representation.
    pub fn conditional_select(a: &EllipticCurvePoint, b: &EllipticCurvePoint, flag: bool) -> (r:
        EllipticCurvePoint)
        requires
            a.wf(),
            b.wf(),
            a.curve.same_curve(b.curve),
        ensures
            r.wf(),
            r.curve == a.curve,
            r.pt() == if flag {
                b.pt()
            } else {
                a.pt()
            },
    {
        match (&a.coordinates, &b.coordinates) {
            (Coordinates::Affine(ax, ay), Coordinates::Affine(bx, by)) => {
                let x = ModRingElement::conditional_select(ax, bx, flag);
                let y = ModRingElement::conditional_select(ay, by, flag);
                EllipticCurvePoint { curve: a.curve, coordinates: Coordinates::Affine(x, y) }
            },
            (Coordinates::Infinity, Coordinates::Infinity) => {
                EllipticCurvePoint { curve: a.curve, coordinates: Coordinates::Infinity }
            },
            _ => {
                if flag {
                    EllipticCurvePoint { curve: a.curve, coordinates: b.coordinates }
                } else {
                    *a
                }
            },
        }
    }

    /// Scalar multiplication by a plain integer: a double-and-
    /// conditional-add pass over the scalar's bits.
    pub fn mul_uint(&self, scalar: &Wide) -> (r: EllipticCurvePoint)
        requires
            self.wf(),
        ensures
            r.wf(),
            r.curve == self.curve,
            r.pt() == spec_mul(self.curve.pv(), self.curve.av(), uval(*scalar), self.pt()),
    {
        let ghost p = self.curve.pv();
        let ghost av = self.curve.av();
        let ghost e = uval(*scalar);
        let bl = u_bit_len(scalar);
        let mut result = self.curve.infinity();
        let mut power = *self;
        let mut i: usize = 0;
        proof {
            vstd::arithmetic::power2::lemma2_to64();
        }
        while i < bl
            invariant
                i <= bl,
                bl <= 2048,
                e == uval(*scalar),
                e < pow2(bl as nat),
                self.wf(),
                p == self.curve.pv(),
                av == self.curve.av(),
                result.wf(),
                result.curve == self.curve,
                power.wf(),
                power.curve == self.curve,
                spec_mul_acc(p, av, e / pow2(i as nat), power.pt(), result.pt()) == spec_mul(
                    p, av, e, self.pt()),
            decreases bl - i,
        {
            let bit = u_bit(scalar, i);
            let sum = result.add(&power);
            let new_result = EllipticCurvePoint::conditional_select(&result, &sum, bit);
            let new_power = power.add(&power);
            proof {
                let k = e / pow2(i as nat);
                vstd::arithmetic::power2::lemma_pow2_pos(i as nat);
                vstd::arithmetic::power2::lemma_pow2_pos((i + 1) as nat);
                vstd::arithmetic::power2::lemma_pow2_adds(i as nat, 1);
                vstd::arithmetic::power2::lemma2_to64();
                assert(pow2(i as nat + 1) == pow2(i as nat) * 2);
                vstd::arithmetic::div_mod::lemma_div_denominator(e as int,
                    pow2(i as nat) as int, 2);
                assert(k / 2 == e / pow2(i as nat + 1));
                lemma_mod_bound(k as int, 2);
                if k == 0 {
                    assert(k % 2 == 0);
                    assert(e / pow2(i as nat + 1) == 0) by {
                        vstd::arithmetic::div_mod::lemma_div_pos_is_pos(
                            (e / pow2(i as nat + 1)) as int, 1);
                    }
                } else {
                    assert(spec_mul_acc(p, av, k, power.pt(), result.pt()) == spec_mul_acc(
                        p, av, k / 2, spec_add(p, av, power.pt(), power.pt()), if k % 2 == 1 {
                            spec_add(p, av, result.pt(), power.pt())
                        } else {
                            result.pt()
                        }));
                }
            }
            result = new_result;
            power = new_power;
            i = i + 1;
        }
        proof {
            lemma_basic_div(e as int, pow2(bl as nat) as int);
            assert(e / pow2(bl as nat) == 0);
        }
        result
    }

    /// Scalar multiplication by a scalar-field element.
    pub fn mul(&self, scalar: &ModRingElement) -> (r: EllipticCurvePoint)
        requires
            self.wf(),
            scalar.wf(),
            scalar.p() == self.curve.nv(),
        ensures
            r.wf(),
            r.curve == self.curve,
            r.pt() == spec_mul(self.curve.pv(), self.curve.av(), scalar.v(), self.pt()),
    {
        let s = scalar.to_uint();
        self.mul_uint(&s)
    }
}

/// What curve construction accepts: odd moduli of the supported sizes, all
/// coefficients reduced, a non-singular equation, a generator that lies on
/// the curve and has exactly the stated order, and distinct modulus and
/// order.
pub open spec fn valid_curve_params(pv: nat, av: nat, bv: nat, xv: nat, yv: nat, nv: nat) ->
    bool {
    &&& pv % 2 == 1
    &&& pv > 27
    &&& nv % 2 == 1
    &&& nv > 1
    &&& av < pv
    &&& bv < pv
    &&& xv < pv
    &&& yv < pv
    &&& f_add(pv, f_mul(pv, 4, f_mul(pv, f_mul(pv, av, av), av)), f_mul(pv, 27, f_mul(pv, bv,
        bv))) != 0
    &&& on_curve(pv, av, bv, xv, yv)
    &&& pv != nv
    &&& spec_mul(pv, av, nv, Some((xv, yv))) is None
}

impl EllipticCurve {
    /// Constructs a curve from raw parameters, accepting exactly the
    /// parameter sets that `valid_curve_params` describes.
    pub fn new(modulus: Wide, a: Wide, b: Wide, x: Wide, y: Wide, order: Wide, cofactor: Wide)
        -> (r: Result<EllipticCurve, Error>)
        ensures
            match r {
                Ok(c) => {
                    &&& c.wf()
                    &&& c.pv() == uval(modulus)
                    &&& c.nv() == uval(order)
                    &&& c.av() == uval(a)
                    &&& c.bv() == uval(b)
                    &&& c.gv() == (uval(x), uval(y))
                    &&& c.hv() == uval(cofactor)
                },
                Err(e) => e == Error::ParameterInvalid,
            },
            r is Ok <==> valid_curve_params(uval(modulus), uval(a), uval(b), uval(x), uval(y),
                uval(order)),
    {
        let ghost pv = uval(modulus);
        let ghost nv = uval(order);
        proof {
            vstd::arithmetic::power2::lemma2_to64();
            vstd::arithmetic::div_mod::lemma_div_basics_1(pv as int);
            vstd::arithmetic::div_mod::lemma_div_basics_1(nv as int);
        }
        let one = u_from_u64(1);
        let c27 = u_from_u64(27);
        if !u_bit(&modulus, 0) || !u_lt(&c27, &modulus) {
            return Err(Error::ParameterInvalid);
        }
        if !u_bit(&order, 0) || !u_lt(&one, &order) {
            return Err(Error::ParameterInvalid);
        }
        if !u_lt(&a, &modulus) || !u_lt(&b, &modulus) || !u_lt(&x, &modulus) || !u_lt(
            &y, &modulus) {
            return Err(Error::ParameterInvalid);
        }
        if u_eq(&modulus, &order) {
            return Err(Error::ParameterInvalid);
        }
        let base_field = ModRing::from_modulus(modulus);
        let scalar_field = ModRing::from_modulus(order);
        let ae = base_field.from(a);
        let be = base_field.from(b);
        let xe = base_field.from(x);
        let ye = base_field.from(y);
        // non-singularity: 4a³ + 27b² ≠ 0
        let four = base_field.from_u64(4);
        let e27 = base_field.from_u64(27);
        let disc = four.mul(&ae.mul(&ae).mul(&ae)).add(&e27.mul(&be.mul(&be)));
        if disc.is_zero() {
            return Err(Error::ParameterInvalid);
        }
        // the generator lies on the curve
        let lhs = ye.mul(&ye);
        let rhs = xe.mul(&xe).mul(&xe).add(&ae.mul(&xe)).add(&be);
        if !lhs.eq_elem(&rhs) {
            return Err(Error::ParameterInvalid);
        }
        let curve = EllipticCurve {
            base_field,
            scalar_field,
            a: ae,
            b: be,
            cofactor,
            gx: xe,
            gy: ye,
        };
        // the generator has exactly the stated order
        let g = curve.generator();
        let chk = g.mul_uint(&order);
        if !chk.is_infinity() {
            return Err(Error::ParameterInvalid);
        }
        Ok(curve)
    }

    /// Validates affine coordinates as a point of this curve: on the curve,
    /// and in the prime-order subgroup whenever the cofactor is not one.
    pub fn from_affine(&self, x: &ModRingElement, y: &ModRingElement) -> (r: Result<
        EllipticCurvePoint,
        Error,
    >)
        requires
            self.wf(),
            x.wf(),
            x.p() == self.pv(),
            y.wf(),
            y.p() == self.pv(),
        ensures
            match r {
                Ok(pt) => {
                    &&& pt.wf()
                    &&& pt.curve == *self
                    &&& pt.pt() == Some((x.v(), y.v()))
                },
                Err(e) => e == Error::PointInvalid,
            },
            r is Ok <==> (on_curve(self.pv(), self.av(), self.bv(), x.v(), y.v()) && (self.hv()
                != 1 ==> spec_mul(self.pv(), self.av(), self.nv(), Some((x.v(), y.v()))) is
                None)),
    {
        let lhs = y.mul(y);
        let rhs = x.mul(x).mul(x).add(&self.a.mul(x)).add(&self.b);
        if !lhs.eq_elem(&rhs) {
            return Err(Error::PointInvalid);
        }
        let candidate = EllipticCurvePoint {
            curve: *self,
            coordinates: Coordinates::Affine(*x, *y),
        };
        let one = u_from_u64(1);
        if !u_eq(&self.cofactor, &one) {
            let order = self.scalar_field.modulus();
            let chk = candidate.mul_uint(&order);
            if !chk.is_infinity() {
                return Err(Error::PointInvalid);
            }
        }
        Ok(candidate)
    }

    /// Solves the curve equation for the given x-coordinate. `Ok` carries a
    /// point whose y-coordinate genuinely squares to `x³ + ax + b`; a
    /// non-residue yields `PointInvalid`, and a base field the square-root
    /// routine does not cover yields `AlgorithmUnsupported`.
    pub fn from_x(&self, x: &ModRingElement) -> (r: Result<EllipticCurvePoint, Error>)
        requires
            self.wf0(),
            x.wf(),
            x.p() == self.pv(),
        ensures
            match r {
                Ok(pt) => {
                    &&& pt.wf()
                    &&& pt.curve == *self
                    &&& pt.pt() is Some
                    &&& pt.pt().unwrap().0 == x.v()
                    &&& on_curve(self.pv(), self.av(), self.bv(), x.v(), pt.pt().unwrap().1)
                },
                Err(e) => e == Error::PointInvalid || e == Error::AlgorithmUnsupported,
            },
            r == Err::<EllipticCurvePoint, Error>(Error::AlgorithmUnsupported) <==> self.pv()
                % 8 == 1,
    {
        let y2 = x.mul(x).mul(x).add(&self.a.mul(x)).add(&self.b);
        match y2.sqrt() {
            Ok(y) => {
                Ok(EllipticCurvePoint {
                    curve: *self,
                    coordinates: Coordinates::Affine(*x, y),
                })
            },
            Err(Error::AlgorithmUnsupported) => Err(Error::AlgorithmUnsupported),
            Err(_) => Err(Error::PointInvalid),
        }
    }

    /// Rebuilds a point from raw Montgomery coordinates, validating it as
    /// `from_affine` does; `None` stands for the point at infinity.
    pub fn from_montgomery(&self, coordinates: Option<(Wide, Wide)>) -> (r: Result<
        EllipticCurvePoint,
        Error,
    >)
        requires
            self.wf(),
        ensures
            match r {
                Ok(pt) => {
                    &&& pt.wf()
                    &&& pt.curve == *self
                    &&& (coordinates is None <==> pt.pt() is None)
                    &&& (pt.pt() is Some ==> on_curve(self.pv(), self.av(), self.bv(),
                        pt.pt().unwrap().0, pt.pt().unwrap().1))
                    &&& (coordinates is Some ==> {
                        let (mx, my) = coordinates.unwrap();
                        &&& (pt.pt().unwrap().0 * crate::ring::radix()) % self.pv() == uval(mx)
                        &&& (pt.pt().unwrap().1 * crate::ring::radix()) % self.pv() == uval(my)
                    })
                },
                Err(e) => e == Error::PointInvalid,
            },
    {
        match coordinates {
            None => Ok(self.infinity()),
            Some((mx, my)) => {
                let modulus = self.base_field.modulus();
                if !u_lt(&mx, &modulus) || !u_lt(&my, &modulus) {
                    return Err(Error::PointInvalid);
                }
                let x = self.base_field.from_montgomery(mx);
                let y = self.base_field.from_montgomery(my);
                self.from_affine(&x, &y)
            },
        }
    }
}

} // verus!
