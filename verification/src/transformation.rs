//! Exact affine maps of the plane: a uniform scale followed by a translation,
//! both rational, kept over one common denominator.

use vstd::prelude::*;
use vstd::arithmetic::div_mod::lemma_mod_multiples_basic;
use vstd::arithmetic::mul::{
    lemma_mul_equality_converse, lemma_mul_is_associative, lemma_mul_is_commutative,
    lemma_mul_is_distributive_add, lemma_mul_is_distributive_add_other_way,
    lemma_mul_unary_negation,
};
use crate::geometry::Point;

verus! {

/// The mathematical content of a [`Transformation`]: the map
/// `p -> (scale * p + (dx, dy)) / denom`.
pub struct Affine {
    pub scale: int,
    pub dx: int,
    pub dy: int,
    pub denom: int,
}

impl Affine {
    /// The common denominator is positive.
    pub open spec fn well_formed(self) -> bool {
        self.denom > 0
    }

    /// Whether each of the four numbers fits a 64-bit signed field.
    pub open spec fn representable(self) -> bool {
        &&& i64::MIN <= self.scale <= i64::MAX
        &&& i64::MIN <= self.dx <= i64::MAX
        &&& i64::MIN <= self.dy <= i64::MAX
        &&& i64::MIN <= self.denom <= i64::MAX
    }

    /// The map that moves nothing.
    pub open spec fn identity() -> Affine {
        Affine { scale: 1, dx: 0, dy: 0, denom: 1 }
    }

    /// The translation by `(x / denom, y / denom)`.
    pub open spec fn translation(x: int, y: int, denom: int) -> Affine {
        Affine { scale: denom, dx: x, dy: y, denom }
    }

    /// The scaling about the origin by `numer / denom`.
    pub open spec fn scaling(numer: int, denom: int) -> Affine {
        Affine { scale: numer, dx: 0, dy: 0, denom }
    }

    /// The map that applies `inner` first and `self` to what comes out.
    pub open spec fn after(self, inner: Affine) -> Affine {
        Affine {
            scale: self.scale * inner.scale,
            dx: self.scale * inner.dx + self.dx * inner.denom,
            dy: self.scale * inner.dy + self.dy * inner.denom,
            denom: self.denom * inner.denom,
        }
    }

    /// Whether the map takes `from` exactly to `to`.
    pub open spec fn sends(self, from: Point, to: Point) -> bool {
        &&& self.scale * from.x + self.dx == self.denom * to.x
        &&& self.scale * from.y + self.dy == self.denom * to.y
    }

    /// Whether two quadruples describe one and the same map of the plane.
    pub open spec fn same_map(self, other: Affine) -> bool {
        &&& self.scale * other.denom == other.scale * self.denom
        &&& self.dx * other.denom == other.dx * self.denom
        &&& self.dy * other.denom == other.dy * self.denom
    }
}

/// A magnification factor: the ratio of two positive whole numbers.
#[derive(Clone, Copy, Debug, PartialEq, Eq)]
pub struct Zoom {
    numer: u16,
    denom: u16,
}

impl Zoom {
    /// The numerator of the ratio.
    pub closed spec fn numer(self) -> int {
        self.numer as int
    }

    /// The denominator of the ratio.
    pub closed spec fn denom(self) -> int {
        self.denom as int
    }

    /// Both parts are positive.
    #[verifier::type_invariant]
    pub open spec fn well_formed(self) -> bool {
        &&& 0 < self.numer() <= u16::MAX
        &&& 0 < self.denom() <= u16::MAX
    }

    /// The factor `numer / denom`, unless one of the two is zero.
    pub fn new(numer: u16, denom: u16) -> (zoom: Option<Zoom>)
        ensures
            zoom is Some <==> numer > 0 && denom > 0,
            zoom matches Some(z) ==> z.numer() == numer && z.denom() == denom && z.well_formed(),
    {
        if numer > 0 && denom > 0 {
            Some(Zoom { numer, denom })
        } else {
            None
        }
    }

    /// Returns the numerator of the ratio.
    pub fn numerator(&self) -> (n: u16)
        ensures
            n == self.numer(),
            n > 0,
    {
        proof {
            use_type_invariant(self);
        }
        self.numer
    }

    /// Returns the denominator of the ratio.
    pub fn denominator(&self) -> (d: u16)
        ensures
            d == self.denom(),
            d > 0,
    {
        proof {
            use_type_invariant(self);
        }
        self.denom
    }
}

/// An affine map of the plane made of a uniform scale and a translation.
///
/// Two values are `==` where their four numbers are the same; whether two
/// values are the same map is what [`Transformation::is_same_map`] tells.
#[derive(Clone, Copy, Debug, PartialEq, Eq)]
pub struct Transformation {
    scale: i64,
    dx: i64,
    dy: i64,
    denom: i64,
}

impl View for Transformation {
    type V = Affine;

    closed spec fn view(&self) -> Affine {
        Affine {
            scale: self.scale as int,
            dx: self.dx as int,
            dy: self.dy as int,
            denom: self.denom as int,
        }
    }
}

proof fn lemma_product_bound(a: int, b: int, la: int, lb: int)
    by (nonlinear_arith)
    requires
        -la <= a <= la,
        -lb <= b <= lb,
    ensures
        -(la * lb) <= a * b <= la * lb,
{
}

proof fn lemma_cancel(d: int, a: int, b: int)
    by (nonlinear_arith)
    requires
        d > 0,
        d * a == d * b,
    ensures
        a == b,
{
}

/// The whole number `q` with `q * d == n`, where there is one.
fn exact_quotient(n: i128, d: i64) -> (r: Option<i128>)
    requires
        d > 0,
        n > i128::MIN,
    ensures
        r matches Some(q) ==> d * q == n,
        r is None ==> forall|q: int| #[trigger] (d * q) != n,
{
    let magnitude: u128 = if n < 0 { (-n) as u128 } else { n as u128 };
    let divisor: u128 = d as u128;
    if magnitude % divisor == 0 {
        let q: u128 = magnitude / divisor;
        assert(divisor * q == magnitude) by (nonlinear_arith)
            requires
                q == magnitude / divisor,
                magnitude % divisor == 0,
                divisor > 0,
        ;
        if n < 0 {
            let r: i128 = -(q as i128);
            assert(d * r == n) by (nonlinear_arith)
                requires
                    r == -q,
                    divisor * q == magnitude,
                    magnitude == -n,
                    divisor == d,
            ;
            Some(r)
        } else {
            Some(q as i128)
        }
    } else {
        assert forall|q: int| #[trigger] (d * q) != n by {
            if d * q == n {
                let k: int = if n < 0 { -q } else { q };
                lemma_mul_unary_negation(d as int, q);
                lemma_mul_is_commutative(d as int, k);
                assert(k * d == magnitude);
                lemma_mod_multiples_basic(k, d as int);
            }
        }
        None
    }
}

fn fits_i64(n: i128) -> (fits: bool)
    ensures
        fits == (i64::MIN <= n <= i64::MAX),
{
    -0x8000_0000_0000_0000i128 <= n && n <= 0x7fff_ffff_ffff_ffffi128
}

impl Transformation {
    /// The common denominator is positive.
    #[verifier::type_invariant]
    pub open spec fn well_formed(self) -> bool {
        self@.well_formed() && self@.representable()
    }

    /// The transformation whose four numbers are those of `map`, where they
    /// are representable.
    pub closed spec fn with_view(map: Affine) -> Transformation {
        Transformation {
            scale: map.scale as i64,
            dx: map.dx as i64,
            dy: map.dy as i64,
            denom: map.denom as i64,
        }
    }

    /// What [`Transformation::compose`] returns.
    pub open spec fn composed(self, inner: Transformation) -> Option<Transformation> {
        if self@.after(inner@).representable() {
            Some(Transformation::with_view(self@.after(inner@)))
        } else {
            None
        }
    }

    /// A transformation is its four numbers and nothing else.
    pub proof fn lemma_view_is_faithful(self)
        ensures
            Transformation::with_view(self@) == self,
            self@.representable(),
    {
    }

    /// The map that moves nothing.
    pub fn identity() -> (t: Transformation)
        ensures
            t@ == Affine::identity(),
    {
        Transformation { scale: 1, dx: 0, dy: 0, denom: 1 }
    }

    /// The translation by `(x, y)`.
    pub fn translate(x: i32, y: i32) -> (t: Transformation)
        ensures
            t@ == Affine::translation(x as int, y as int, 1),
    {
        Transformation { scale: 1, dx: x as i64, dy: y as i64, denom: 1 }
    }

    /// The scaling about the origin by `zoom`.
    pub fn scale(zoom: Zoom) -> (t: Transformation)
        ensures
            t@ == Affine::scaling(zoom.numer(), zoom.denom()),
    {
        let n: u16 = zoom.numerator();
        let d: u16 = zoom.denominator();
        Transformation { scale: n as i64, dx: 0, dy: 0, denom: d as i64 }
    }

    /// The map with the given numerators over `denom`, where `denom` is
    /// positive.
    pub fn from_parts(scale: i64, dx: i64, dy: i64, denom: i64) -> (t: Option<Transformation>)
        ensures
            t is Some <==> denom > 0,
            t matches Some(m) ==> m@ == (Affine {
                scale: scale as int,
                dx: dx as int,
                dy: dy as int,
                denom: denom as int,
            }),
    {
        if denom > 0 {
            Some(Transformation { scale, dx, dy, denom })
        } else {
            None
        }
    }

    /// The map with the given numerators over the positive `denom`.
    pub(crate) fn over(scale: i64, dx: i64, dy: i64, denom: i64) -> (t: Transformation)
        requires
            denom > 0,
        ensures
            t@ == (Affine { scale: scale as int, dx: dx as int, dy: dy as int, denom: denom as int }),
    {
        Transformation { scale, dx, dy, denom }
    }

    /// Returns the numerator of the scale.
    pub fn scale_numerator(&self) -> (n: i64)
        ensures
            n == self@.scale,
    {
        self.scale
    }

    /// Returns the numerator of the horizontal translation.
    pub fn x_numerator(&self) -> (n: i64)
        ensures
            n == self@.dx,
    {
        self.dx
    }

    /// Returns the numerator of the vertical translation.
    pub fn y_numerator(&self) -> (n: i64)
        ensures
            n == self@.dy,
    {
        self.dy
    }

    /// Returns the common denominator.
    pub fn denominator(&self) -> (n: i64)
        ensures
            n == self@.denom,
            n > 0,
    {
        proof {
            use_type_invariant(self);
        }
        self.denom
    }

    /// The map that applies `inner` first and `self` afterwards, unless one
    /// of its four numbers leaves the 64-bit range.
    pub fn compose(&self, inner: &Transformation) -> (composed: Option<Transformation>)
        ensures
            composed == self.composed(*inner),
            composed is Some <==> self@.after(inner@).representable(),
            composed matches Some(t) ==> t@ == self@.after(inner@),
    {
        proof {
            use_type_invariant(self);
            use_type_invariant(inner);
            let top: int = 0x8000_0000_0000_0000;
            lemma_product_bound(self.scale as int, inner.scale as int, top, top);
            lemma_product_bound(self.scale as int, inner.dx as int, top, top);
            lemma_product_bound(self.scale as int, inner.dy as int, top, top);
            lemma_product_bound(self.dx as int, inner.denom as int, top, top - 1);
            lemma_product_bound(self.dy as int, inner.denom as int, top, top - 1);
            lemma_product_bound(self.denom as int, inner.denom as int, top, top);
            assert(top * top == 0x4000_0000_0000_0000_0000_0000_0000_0000);
            assert(top * (top - 1) == 0x3fff_ffff_ffff_ffff_8000_0000_0000_0000);
            assert(self.denom * inner.denom > 0) by (nonlinear_arith)
                requires
                    self.denom > 0,
                    inner.denom > 0,
            ;
        }
        let scale: i128 = (self.scale as i128) * (inner.scale as i128);
        let dx: i128 = (self.scale as i128) * (inner.dx as i128) + (self.dx as i128) * (
        inner.denom as i128);
        let dy: i128 = (self.scale as i128) * (inner.dy as i128) + (self.dy as i128) * (
        inner.denom as i128);
        let denom: i128 = (self.denom as i128) * (inner.denom as i128);
        if fits_i64(scale) && fits_i64(dx) && fits_i64(dy) && fits_i64(denom) {
            Some(Transformation { scale: scale as i64, dx: dx as i64, dy: dy as i64, denom: denom as i64 })
        } else {
            None
        }
    }

    /// The image of `point`, where it is again a point of whole coordinates.
    pub fn apply(&self, point: Point) -> (image: Option<Point>)
        ensures
            image matches Some(q) ==> self@.sends(point, q),
            image is None ==> forall|q: Point| !self@.sends(point, q),
            forall|q: Point| self@.sends(point, q) ==> image == Some(q),
    {
        proof {
            use_type_invariant(self);
            let top: int = 0x8000_0000_0000_0000;
            lemma_product_bound(self.scale as int, point.x as int, top, 0x8000_0000);
            lemma_product_bound(self.scale as int, point.y as int, top, 0x8000_0000);
            assert(top * 0x8000_0000 == 0x4000_0000_0000_0000_0000_0000);
        }
        let nx: i128 = (self.scale as i128) * (point.x as i128) + (self.dx as i128);
        let ny: i128 = (self.scale as i128) * (point.y as i128) + (self.dy as i128);
        let qx: Option<i128> = exact_quotient(nx, self.denom);
        let qy: Option<i128> = exact_quotient(ny, self.denom);
        match (qx, qy) {
            (Some(x), Some(y)) => {
                if -0x8000_0000i128 <= x && x <= 0x7fff_ffffi128 && -0x8000_0000i128 <= y && y
                    <= 0x7fff_ffffi128 {
                    let image: Point = Point { x: x as i32, y: y as i32 };
                    assert forall|q: Point| self@.sends(point, q) implies q == image by {
                        lemma_image_is_unique(self@, point, image, q);
                    }
                    Some(image)
                } else {
                    assert forall|q: Point| !self@.sends(point, q) by {
                        if self@.sends(point, q) {
                            lemma_cancel(self.denom as int, x as int, q.x as int);
                            lemma_cancel(self.denom as int, y as int, q.y as int);
                        }
                    }
                    None
                }
            },
            _ => {
                assert forall|q: Point| !self@.sends(point, q) by {
                    if self@.sends(point, q) {
                        assert(self.denom * q.x == nx);
                        assert(self.denom * q.y == ny);
                    }
                }
                None
            },
        }
    }

    /// Whether `self` and `other` are one and the same map of the plane.
    pub fn is_same_map(&self, other: &Transformation) -> (same: bool)
        ensures
            same == self@.same_map(other@),
    {
        proof {
            let top: int = 0x8000_0000_0000_0000;
            lemma_product_bound(self.scale as int, other.denom as int, top, top);
            lemma_product_bound(other.scale as int, self.denom as int, top, top);
            lemma_product_bound(self.dx as int, other.denom as int, top, top);
            lemma_product_bound(other.dx as int, self.denom as int, top, top);
            lemma_product_bound(self.dy as int, other.denom as int, top, top);
            lemma_product_bound(other.dy as int, self.denom as int, top, top);
            assert(top * top == 0x4000_0000_0000_0000_0000_0000_0000_0000);
        }
        (self.scale as i128) * (other.denom as i128) == (other.scale as i128) * (self.denom as i128)
            && (self.dx as i128) * (other.denom as i128) == (other.dx as i128) * (
        self.denom as i128) && (self.dy as i128) * (other.denom as i128) == (other.dy as i128) * (
        self.denom as i128)
    }
}

/// Composition is associative: nesting three maps gives the same four
/// numbers however the nesting is bracketed.
pub proof fn lemma_after_associative(a: Affine, b: Affine, c: Affine)
    ensures
        a.after(b).after(c) == a.after(b.after(c)),
{
    lemma_mul_is_associative(a.scale, b.scale, c.scale);
    lemma_mul_is_associative(a.denom, b.denom, c.denom);
    lemma_nested_offset(a.scale, a.dx, b.scale, b.dx, b.denom, c.dx, c.denom);
    lemma_nested_offset(a.scale, a.dy, b.scale, b.dy, b.denom, c.dy, c.denom);
}

proof fn lemma_nested_offset(s1: int, t1: int, s2: int, t2: int, n2: int, t3: int, n3: int)
    ensures
        (s1 * s2) * t3 + (s1 * t2 + t1 * n2) * n3 == s1 * (s2 * t3 + t2 * n3) + t1 * (n2 * n3),
{
    lemma_mul_is_associative(s1, s2, t3);
    lemma_mul_is_distributive_add_other_way(n3, s1 * t2, t1 * n2);
    lemma_mul_is_associative(s1, t2, n3);
    lemma_mul_is_associative(t1, n2, n3);
    lemma_mul_is_distributive_add(s1, s2 * t3, t2 * n3);
}

/// The identity is neutral for composition on either side.
pub proof fn lemma_identity_neutral(a: Affine)
    ensures
        Affine::identity().after(a) == a,
        a.after(Affine::identity()) == a,
{
}

/// A composed map takes a point where its two parts take it in turn.
pub proof fn lemma_after_sends(outer: Affine, inner: Affine, from: Point, via: Point, to: Point)
    requires
        inner.sends(from, via),
        outer.sends(via, to),
    ensures
        outer.after(inner).sends(from, to),
{
    lemma_after_sends_axis(outer.scale, outer.dx, outer.denom, inner.scale, inner.dx, inner.denom,
        from.x as int, via.x as int, to.x as int);
    lemma_after_sends_axis(outer.scale, outer.dy, outer.denom, inner.scale, inner.dy, inner.denom,
        from.y as int, via.y as int, to.y as int);
}

proof fn lemma_after_sends_axis(
    os: int,
    od: int,
    on: int,
    is: int,
    id: int,
    inn: int,
    from: int,
    via: int,
    to: int,
)
    requires
        is * from + id == inn * via,
        os * via + od == on * to,
    ensures
        (os * is) * from + (os * id + od * inn) == (on * inn) * to,
{
    lemma_mul_is_associative(os, is, from);
    lemma_mul_is_distributive_add(os, is * from, id);
    assert((os * is) * from + os * id == os * (inn * via));
    lemma_mul_is_associative(os, inn, via);
    lemma_mul_is_commutative(os, inn);
    lemma_mul_is_associative(inn, os, via);
    assert(os * (inn * via) == inn * (os * via));
    lemma_mul_is_commutative(od, inn);
    lemma_mul_is_distributive_add(inn, os * via, od);
    assert(inn * (os * via) + od * inn == inn * (on * to));
    lemma_mul_is_associative(inn, on, to);
    lemma_mul_is_commutative(inn, on);
}

/// Two quadruples that describe the same map take each point to the same
/// place.
pub proof fn lemma_same_map_sends(a: Affine, b: Affine, from: Point, to: Point)
    requires
        a.well_formed(),
        b.well_formed(),
        a.same_map(b),
        a.sends(from, to),
    ensures
        b.sends(from, to),
{
    lemma_same_map_axis(a.scale, a.dx, a.denom, b.scale, b.dx, b.denom, from.x as int, to.x as int);
    lemma_same_map_axis(a.scale, a.dy, a.denom, b.scale, b.dy, b.denom, from.y as int, to.y as int);
}

proof fn lemma_same_map_axis(
    asc: int,
    ad: int,
    an: int,
    bs: int,
    bd: int,
    bn: int,
    from: int,
    to: int,
)
    requires
        an > 0,
        bn > 0,
        asc * bn == bs * an,
        ad * bn == bd * an,
        asc * from + ad == an * to,
    ensures
        bs * from + bd == bn * to,
{
    // an * (bs * from + bd) == bn * (asc * from + ad) == an * (bn * to)
    lemma_mul_is_distributive_add(an, bs * from, bd);
    lemma_mul_is_associative(an, bs, from);
    lemma_mul_is_commutative(an, bs);
    lemma_mul_is_commutative(an, bd);
    assert(an * (bs * from + bd) == (asc * bn) * from + ad * bn);
    lemma_mul_is_commutative(asc, bn);
    lemma_mul_is_associative(bn, asc, from);
    lemma_mul_is_commutative(ad, bn);
    lemma_mul_is_distributive_add(bn, asc * from, ad);
    assert(an * (bs * from + bd) == bn * (an * to));
    lemma_mul_is_associative(bn, an, to);
    lemma_mul_is_commutative(bn, an);
    lemma_mul_is_associative(an, bn, to);
    lemma_mul_equality_converse(an, bs * from + bd, bn * to);
}

/// A map takes a point to one place at most.
pub proof fn lemma_image_is_unique(a: Affine, from: Point, to: Point, other: Point)
    requires
        a.well_formed(),
        a.sends(from, to),
        a.sends(from, other),
    ensures
        to == other,
{
    lemma_cancel(a.denom, to.x as int, other.x as int);
    lemma_cancel(a.denom, to.y as int, other.y as int);
}

} // verus!
