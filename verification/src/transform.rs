//! Composition of model transforms.
//!
//! A model matrix is a product of elementary matrices: translations, axis
//! rotations and a scaling. Which elementary matrices enter the product, and
//! in which order, is fixed here. How an elementary matrix is made from a
//! vector, and how two matrices are multiplied, is the caller's numeric
//! business: both are passed in as functions, and the contracts quote what
//! those functions promise.
use vstd::prelude::*;

verus! {

/// The elementary matrices, each made from one vector `v`.
#[derive(Clone, Copy, Debug, PartialEq, Eq)]
pub enum Elementary {
    /// Translation by `v`.
    Translation,
    /// Translation by `-v`.
    InverseTranslation,
    /// Rotation about the X axis by the angle `v.x` (roll).
    RotationX,
    /// Rotation about the Y axis by the angle `v.y` (pitch).
    RotationY,
    /// Rotation about the Z axis by the angle `v.z` (yaw).
    RotationZ,
    /// Scaling by `v.x`, `v.y`, `v.z` along the three axes.
    Scaling,
}

/// A matrix expression: what is multiplied with what, before any number is
/// computed.
pub enum Term<V, M> {
    /// A matrix that is already there.
    Given(M),
    /// The elementary matrix of the given kind made from the vector.
    Made(Elementary, V),
    /// Left factor times right factor.
    Product(Box<Term<V, M>>, Box<Term<V, M>>),
}

/// `left · right`.
pub open spec fn product<V, M>(left: Term<V, M>, right: Term<V, M>) -> Term<V, M> {
    Term::Product(Box::new(left), Box::new(right))
}

/// `result` is a value of `term` when elementary matrices are made by `make`
/// and products are taken by `compose`.
pub open spec fn evaluates<V, M, B, C>(make: B, compose: C, term: Term<V, M>, result: M) -> bool
    where B: Fn(Elementary, &V) -> M, C: Fn(&M, &M) -> M
    decreases term,
{
    match term {
        Term::Given(m) => result == m,
        Term::Made(kind, v) => call_ensures(make, (kind, &v), result),
        Term::Product(left, right) => exists|l: M, r: M|
            evaluates(make, compose, *left, l) && evaluates(make, compose, *right, r)
                && #[trigger] call_ensures(compose, (&l, &r), result),
    }
}

/// Both functions accept every argument.
pub open spec fn total<V, M, B, C>(make: B, compose: C) -> bool
    where B: Fn(Elementary, &V) -> M, C: Fn(&M, &M) -> M
{
    &&& forall|kind: Elementary, v: V| call_requires(make, (kind, &v))
    &&& forall|a: M, b: M| call_requires(compose, (&a, &b))
}

/// `R(angles) = Rz(yaw) · Ry(pitch) · Rx(roll)`: roll is applied to a vertex
/// first, then pitch, then yaw.
pub open spec fn rotation_term<V, M>(angles: V) -> Term<V, M> {
    product(
        product(Term::Made(Elementary::RotationZ, angles), Term::Made(Elementary::RotationY, angles)),
        Term::Made(Elementary::RotationX, angles),
    )
}

/// `T(position) · R(rotation) · S(scale)`: a vertex is scaled, then rotated,
/// then translated.
pub open spec fn model_term<V, M>(position: V, rotation: V, scale: V) -> Term<V, M> {
    product(
        product(Term::Made(Elementary::Translation, position), rotation_term(rotation)),
        Term::Made(Elementary::Scaling, scale),
    )
}

/// `T(position) · T(pivot) · R(rotation) · T(-pivot) · S(scale)`: as
/// `model_term`, but the rotation turns about `pivot` and not about the
/// origin.
pub open spec fn pivot_term<V, M>(position: V, rotation: V, scale: V, pivot: V) -> Term<V, M> {
    product(
        product(
            product(
                product(Term::Made(Elementary::Translation, position), Term::Made(Elementary::Translation, pivot)),
                rotation_term(rotation),
            ),
            Term::Made(Elementary::InverseTranslation, pivot),
        ),
        Term::Made(Elementary::Scaling, scale),
    )
}

/// A product has every value that `compose` gives for values of its factors.
pub proof fn lemma_product_evaluates<V, M, B, C>(
    make: B,
    compose: C,
    left: Term<V, M>,
    right: Term<V, M>,
    l: M,
    r: M,
    result: M,
)
    where B: Fn(Elementary, &V) -> M, C: Fn(&M, &M) -> M
    requires
        evaluates(make, compose, left, l),
        evaluates(make, compose, right, r),
        call_ensures(compose, (&l, &r), result),
    ensures
        evaluates(make, compose, product(left, right), result),
{
}

/// Each of the two functions has one result at most for given arguments.
pub open spec fn single_valued<V, M, B, C>(make: B, compose: C) -> bool
    where B: Fn(Elementary, &V) -> M, C: Fn(&M, &M) -> M
{
    &&& forall|kind: Elementary, v: V, a: M, b: M|
        call_ensures(make, (kind, &v), a) && call_ensures(make, (kind, &v), b) ==> a == b
    &&& forall|x: M, y: M, a: M, b: M|
        call_ensures(compose, (&x, &y), a) && call_ensures(compose, (&x, &y), b) ==> a == b
}

/// Where the two functions are single-valued, an expression has one value
/// at most: the contracts in this library then say which matrix comes
/// back, not only which matrices may.
pub proof fn lemma_value_is_determined<V, M, B, C>(make: B, compose: C, term: Term<V, M>, a: M, b: M)
    where B: Fn(Elementary, &V) -> M, C: Fn(&M, &M) -> M
    requires
        single_valued(make, compose),
        evaluates(make, compose, term, a),
        evaluates(make, compose, term, b),
    ensures
        a == b,
    decreases term,
{
    match term {
        Term::Given(m) => {},
        Term::Made(kind, v) => {},
        Term::Product(left, right) => {
            let (la, ra) = choose|l: M, r: M|
                evaluates(make, compose, *left, l) && evaluates(make, compose, *right, r)
                    && #[trigger] call_ensures(compose, (&l, &r), a);
            let (lb, rb) = choose|l: M, r: M|
                evaluates(make, compose, *left, l) && evaluates(make, compose, *right, r)
                    && #[trigger] call_ensures(compose, (&l, &r), b);
            lemma_value_is_determined(make, compose, *left, la, lb);
            lemma_value_is_determined(make, compose, *right, ra, rb);
        },
    }
}

/// With the pivot at the origin the pivot formula is `T · R · S`.
///
/// The origin enters as what it means for matrices: the translation by the
/// pivot, and the one back, leave every matrix as it is when multiplied to
/// it from the right. Then every value of the pivot formula is a value of
/// `T(position) · R(rotation) · S(scale)`.
pub proof fn lemma_pivot_at_origin<V, M, B, C>(
    make: B,
    compose: C,
    position: V,
    rotation: V,
    scale: V,
    pivot: V,
    result: M,
)
    where B: Fn(Elementary, &V) -> M, C: Fn(&M, &M) -> M
    requires
        forall|i: M, x: M, y: M|
            (call_ensures(make, (Elementary::Translation, &pivot), i) || call_ensures(
                make,
                (Elementary::InverseTranslation, &pivot),
                i,
            )) && #[trigger] call_ensures(compose, (&x, &i), y) ==> y == x,
        evaluates(make, compose, pivot_term::<V, M>(position, rotation, scale, pivot), result),
    ensures
        evaluates(make, compose, model_term::<V, M>(position, rotation, scale), result),
{
    let tt = Term::<V, M>::Made(Elementary::Translation, position);
    let tto = Term::<V, M>::Made(Elementary::Translation, pivot);
    let tback = Term::<V, M>::Made(Elementary::InverseTranslation, pivot);
    let ts = Term::<V, M>::Made(Elementary::Scaling, scale);
    let trot = rotation_term::<V, M>(rotation);
    let ta = product(tt, tto);
    let tb = product(ta, trot);
    let tc = product(tb, tback);
    let (c, s) = choose|c: M, s: M|
        evaluates(make, compose, tc, c) && evaluates(make, compose, ts, s) && #[trigger] call_ensures(
            compose,
            (&c, &s),
            result,
        );
    let (b, back) = choose|b: M, back: M|
        evaluates(make, compose, tb, b) && evaluates(make, compose, tback, back) && #[trigger] call_ensures(
            compose,
            (&b, &back),
            c,
        );
    let (a, rot) = choose|a: M, rot: M|
        evaluates(make, compose, ta, a) && evaluates(make, compose, trot, rot) && #[trigger] call_ensures(
            compose,
            (&a, &rot),
            b,
        );
    let (t, to) = choose|t: M, to: M|
        evaluates(make, compose, tt, t) && evaluates(make, compose, tto, to) && #[trigger] call_ensures(
            compose,
            (&t, &to),
            a,
        );
    assert(c == b);
    assert(a == t);
    lemma_product_evaluates(make, compose, tt, trot, t, rot, b);
    lemma_product_evaluates(make, compose, product(tt, trot), ts, b, s, result);
}

/// The rotation matrix `Rz · Ry · Rx` of an Euler angle triple.
pub fn rotation_matrix<V, M, B, C>(angles: &V, make: &B, compose: &C) -> (r: M)
    where B: Fn(Elementary, &V) -> M, C: Fn(&M, &M) -> M
    requires
        total(*make, *compose),
    ensures
        evaluates(*make, *compose, rotation_term::<V, M>(*angles), r),
{
    let rz = make(Elementary::RotationZ, angles);
    let ry = make(Elementary::RotationY, angles);
    let rx = make(Elementary::RotationX, angles);
    let rzy = compose(&rz, &ry);
    let r = compose(&rzy, &rx);
    proof {
        let tz = Term::<V, M>::Made(Elementary::RotationZ, *angles);
        let ty = Term::<V, M>::Made(Elementary::RotationY, *angles);
        let tx = Term::<V, M>::Made(Elementary::RotationX, *angles);
        lemma_product_evaluates(*make, *compose, tz, ty, rz, ry, rzy);
        lemma_product_evaluates(*make, *compose, product(tz, ty), tx, rzy, rx, r);
    }
    r
}

/// The model matrix `T(position) · R(rotation) · S(scale)`.
pub fn model_matrix<V, M, B, C>(position: &V, rotation: &V, scale: &V, make: &B, compose: &C) -> (r: M)
    where B: Fn(Elementary, &V) -> M, C: Fn(&M, &M) -> M
    requires
        total(*make, *compose),
    ensures
        evaluates(*make, *compose, model_term::<V, M>(*position, *rotation, *scale), r),
{
    let t = make(Elementary::Translation, position);
    let rot = rotation_matrix(rotation, make, compose);
    let s = make(Elementary::Scaling, scale);
    let tr = compose(&t, &rot);
    let r = compose(&tr, &s);
    proof {
        let tt = Term::<V, M>::Made(Elementary::Translation, *position);
        let ts = Term::<V, M>::Made(Elementary::Scaling, *scale);
        lemma_product_evaluates(*make, *compose, tt, rotation_term(*rotation), t, rot, tr);
        lemma_product_evaluates(*make, *compose, product(tt, rotation_term(*rotation)), ts, tr, s, r);
    }
    r
}

/// The local matrix of a part that turns about `pivot`:
/// `T(position) · T(pivot) · R(rotation) · T(-pivot) · S(scale)`.
pub fn pivot_matrix<V, M, B, C>(
    position: &V,
    rotation: &V,
    scale: &V,
    pivot: &V,
    make: &B,
    compose: &C,
) -> (r: M)
    where B: Fn(Elementary, &V) -> M, C: Fn(&M, &M) -> M
    requires
        total(*make, *compose),
    ensures
        evaluates(*make, *compose, pivot_term::<V, M>(*position, *rotation, *scale, *pivot), r),
{
    let t = make(Elementary::Translation, position);
    let to = make(Elementary::Translation, pivot);
    let rot = rotation_matrix(rotation, make, compose);
    let back = make(Elementary::InverseTranslation, pivot);
    let s = make(Elementary::Scaling, scale);
    let a = compose(&t, &to);
    let b = compose(&a, &rot);
    let c = compose(&b, &back);
    let r = compose(&c, &s);
    proof {
        let tt = Term::<V, M>::Made(Elementary::Translation, *position);
        let tto = Term::<V, M>::Made(Elementary::Translation, *pivot);
        let tback = Term::<V, M>::Made(Elementary::InverseTranslation, *pivot);
        let ts = Term::<V, M>::Made(Elementary::Scaling, *scale);
        let ta = product(tt, tto);
        let tb = product(ta, rotation_term(*rotation));
        let tc = product(tb, tback);
        lemma_product_evaluates(*make, *compose, tt, tto, t, to, a);
        lemma_product_evaluates(*make, *compose, ta, rotation_term(*rotation), a, rot, b);
        lemma_product_evaluates(*make, *compose, tb, tback, b, back, c);
        lemma_product_evaluates(*make, *compose, tc, ts, c, s, r);
    }
    r
}

/// The matrix that takes an object's vertices to clip space:
/// `view_projection · T(position) · R(rotation) · S(scale)`.
pub fn calculate_transformation_object<V, M, B, C>(
    position: &V,
    rotation: &V,
    scale: &V,
    view_projection_matrix: &M,
    make: &B,
    compose: &C,
) -> (r: M)
    where B: Fn(Elementary, &V) -> M, C: Fn(&M, &M) -> M
    requires
        total(*make, *compose),
    ensures
        evaluates(
            *make,
            *compose,
            product(Term::Given(*view_projection_matrix), model_term::<V, M>(*position, *rotation, *scale)),
            r,
        ),
{
    let model = model_matrix(position, rotation, scale, make, compose);
    let r = compose(view_projection_matrix, &model);
    proof {
        lemma_product_evaluates(
            *make,
            *compose,
            Term::Given(*view_projection_matrix),
            model_term::<V, M>(*position, *rotation, *scale),
            *view_projection_matrix,
            model,
            r,
        );
    }
    r
}

} // verus!
