//! The basic backend: nested vectors and plain loops.

use vstd::prelude::*;
use vstd::std_specs::convert::FromSpec;
use vstd::std_specs::ops::AddSpec;
use vstd::std_specs::ops::MulSpec;
use std::ops::Add;
use std::ops::Mul;
use crate::backend::Backend as BackendTrait;
use crate::model::add1;
use crate::model::add1_req;
use crate::model::add1_scalar;
use crate::model::add1_scalar_req;
use crate::model::add2;
use crate::model::add2_along0;
use crate::model::add2_along0_req;
use crate::model::add2_along1;
use crate::model::add2_along1_req;
use crate::model::add2_req;
use crate::model::add2_scalar;
use crate::model::add2_scalar_req;
use crate::model::column;
use crate::model::converts_to;
use crate::model::diagonal;
use crate::model::dot;
use crate::model::dot_prefix;
use crate::model::dot_req;
use crate::model::filled1;
use crate::model::filled2;
use crate::model::filled3;
use crate::model::is_cube;
use crate::model::is_matrix;
use crate::model::is_perm3;
use crate::model::matmul;
use crate::model::matmul_req;
use crate::model::nth3;
use crate::model::one;
use crate::model::permuted3;
use crate::model::source3;
use crate::model::sum_of;
use crate::model::sums1;
use crate::model::sums1_scalar;
use crate::model::sums2;
use crate::model::sums2_along0;
use crate::model::sums2_along1;
use crate::model::sums2_scalar;
use crate::model::transposed;
use crate::tensor::Dimension;
use crate::tensor::Index;

verus! {

/// The basic backend. A rank-0 tensor is the element itself, a rank-1
/// tensor a `Vec` of elements, a rank-2 tensor a `Vec` of rows and a
/// rank-3 tensor a `Vec` of such matrices.
#[derive(Clone, Debug)]
pub struct Backend {}

/// The rows of a nested vector, each as a sequence.
pub open spec fn view2<T>(v: Vec<Vec<T>>) -> Seq<Seq<T>> {
    Seq::new(v@.len(), |i: int| v@[i]@)
}

/// The blocks of a doubly nested vector, each as a sequence of rows.
pub open spec fn view3<T>(v: Vec<Vec<Vec<T>>>) -> Seq<Seq<Seq<T>>> {
    Seq::new(v@.len(), |i: int| view2(v@[i]))
}

/// A vector of `d0` copies of `x`.
fn repeat1<T: Copy>(x: T, d0: usize) -> (r: Vec<T>)
    ensures
        r@ == filled1(x, d0 as nat),
{
    let mut r: Vec<T> = Vec::new();
    for i in 0..d0
        invariant
            r@.len() == i,
            forall|k: int| 0 <= k < i ==> r@[k] == x,
    {
        r.push(x);
    }
    assert(r@ =~= filled1(x, d0 as nat));
    r
}

/// A `d0` by `d1` matrix whose every element is `x`.
fn repeat2<T: Copy>(x: T, d0: usize, d1: usize) -> (r: Vec<Vec<T>>)
    ensures
        view2(r) == filled2(x, d0 as nat, d1 as nat),
{
    let mut r: Vec<Vec<T>> = Vec::new();
    for i in 0..d0
        invariant
            r@.len() == i,
            forall|k: int| 0 <= k < i ==> (#[trigger] r@[k])@ == filled1(x, d1 as nat),
    {
        let row = repeat1(x, d1);
        r.push(row);
    }
    assert(view2(r) =~= filled2(x, d0 as nat, d1 as nat));
    r
}

/// A `d0` by `d1` by `d2` tensor whose every element is `x`.
fn repeat3<T: Copy>(x: T, d0: usize, d1: usize, d2: usize) -> (r: Vec<Vec<Vec<T>>>)
    ensures
        view3(r) == filled3(x, d0 as nat, d1 as nat, d2 as nat),
{
    let mut r: Vec<Vec<Vec<T>>> = Vec::new();
    for i in 0..d0
        invariant
            r@.len() == i,
            forall|k: int| 0 <= k < i ==> view2(#[trigger] r@[k]) == filled2(x, d1 as nat, d2 as nat),
    {
        let block = repeat2(x, d1, d2);
        r.push(block);
    }
    assert(view3(r) =~= filled3(x, d0 as nat, d1 as nat, d2 as nat));
    r
}

/// The elements of `v` in the opposite order.
fn reversed<T>(v: Vec<T>) -> (r: Vec<T>)
    ensures
        r@.len() == v@.len(),
        forall|i: int| 0 <= i < v@.len() ==> r@[i] == v@[v@.len() - 1 - i],
{
    let ghost v0 = v@;
    let mut v = v;
    let mut r: Vec<T> = Vec::new();
    while v.len() > 0
        invariant
            v@.len() + r@.len() == v0.len(),
            forall|i: int| 0 <= i < v@.len() ==> v@[i] == v0[i],
            forall|i: int| 0 <= i < r@.len() ==> r@[i] == v0[v0.len() - 1 - i],
        decreases v@.len(),
    {
        let x = v.pop().unwrap();
        r.push(x);
    }
    r
}

/// Component `i` of a triple of integers.
fn component(t: (usize, usize, usize), i: usize) -> (r: usize)
    ensures
        r == nth3(t, i as int),
{
    if i == 0 {
        t.0
    } else if i == 1 {
        t.1
    } else {
        t.2
    }
}

/// Of the three output indices `out`, the one that indexes input axis
/// `axis` under the permutation `p`.
fn source(p: (usize, usize, usize), out: (usize, usize, usize), axis: usize) -> (r: usize)
    ensures
        r == source3(p, (out.0 as int, out.1 as int, out.2 as int), axis as int),
{
    if p.0 == axis {
        out.0
    } else if p.1 == axis {
        out.1
    } else {
        out.2
    }
}

/// Adds the elements of `b` to those of `a`, place by place, leaving `b`
/// to its owner.
fn add_borrowed<T: Add<Output = T> + Copy>(a: Vec<T>, b: &Vec<T>) -> (r: Vec<T>)
    requires
        a@.len() == b@.len(),
        add1_req(a@, b@),
    ensures
        sums1(a@, b@, r@),
        T::obeys_add_spec() ==> r@ == add1(a@, b@),
{
    let n: usize = a.len();
    let mut r: Vec<T> = Vec::new();
    let mut i: usize = 0;
    for x in it: a.into_iter()
        invariant
            it.seq() == a@,
            n == a@.len(),
            i == it.index(),
            r@.len() == i,
            a@.len() == b@.len(),
            add1_req(a@, b@),
            forall|k: int| 0 <= k < i ==> sum_of(a@[k], b@[k], #[trigger] r@[k]),
    {
        assert(a@[i as int].add_req(b@[i as int]));
        r.push(x + b[i]);
        i = i + 1;
    }
    assert(T::obeys_add_spec() ==> r@ =~= add1(a@, b@));
    r
}

impl<T: Clone> BackendTrait<T> for Backend {
    type T0Repr = T;

    type T1Repr = Vec<T>;

    type T2Repr = Vec<Vec<T>>;

    type T3Repr = Vec<Vec<Vec<T>>>;

    open spec fn t0_view(r: Self::T0Repr) -> T {
        r
    }

    open spec fn t1_view(r: Self::T1Repr) -> Seq<T> {
        r@
    }

    open spec fn t2_view(r: Self::T2Repr) -> Seq<Seq<T>> {
        view2(r)
    }

    open spec fn t3_view(r: Self::T3Repr) -> Seq<Seq<Seq<T>>> {
        view3(r)
    }

    fn t0_zero() -> (r: Self::T0Repr) where T: From<u8> {
        T::from(0u8)
    }

    fn t0_one() -> (r: Self::T0Repr) where T: From<u8> {
        T::from(1u8)
    }

    fn t1_zeros(d0: Index) -> (r: Self::T1Repr) where T: From<u8> + Copy {
        let z: T = T::from(0u8);
        let r = repeat1(z, d0);
        assert(converts_to(0u8, z) && r@ == filled1(z, d0 as nat));
        r
    }

    fn t1_ones(d0: Index) -> (r: Self::T1Repr) where T: From<u8> + Copy {
        let o: T = T::from(1u8);
        let r = repeat1(o, d0);
        assert(converts_to(1u8, o) && r@ == filled1(o, d0 as nat));
        r
    }

    fn t2_zeros(d0: Index, d1: Index) -> (r: Self::T2Repr) where T: From<u8> + Copy {
        let z: T = T::from(0u8);
        let r = repeat2(z, d0, d1);
        assert(converts_to(0u8, z) && view2(r) == filled2(z, d0 as nat, d1 as nat));
        r
    }

    fn t2_ones(d0: Index, d1: Index) -> (r: Self::T2Repr) where T: From<u8> + Copy {
        let o: T = T::from(1u8);
        let r = repeat2(o, d0, d1);
        assert(converts_to(1u8, o) && view2(r) == filled2(o, d0 as nat, d1 as nat));
        r
    }

    fn t3_zeros(d0: Index, d1: Index, d2: Index) -> (r: Self::T3Repr) where T: From<u8> + Copy {
        let z: T = T::from(0u8);
        let r = repeat3(z, d0, d1, d2);
        assert(converts_to(0u8, z) && view3(r) == filled3(z, d0 as nat, d1 as nat, d2 as nat));
        r
    }

    fn t3_ones(d0: Index, d1: Index, d2: Index) -> (r: Self::T3Repr) where T: From<u8> + Copy {
        let o: T = T::from(1u8);
        let r = repeat3(o, d0, d1, d2);
        assert(converts_to(1u8, o) && view3(r) == filled3(o, d0 as nat, d1 as nat, d2 as nat));
        r
    }

    fn t2_identity(d: Index) -> (r: Self::T2Repr) where T: From<u8> + Copy {
        let z: T = T::from(0u8);
        let o: T = T::from(1u8);
        let mut matrix: Vec<Vec<T>> = Vec::new();
        for i in 0..d
            invariant
                matrix@.len() == i,
                forall|k: int|
                    0 <= k < i ==> (#[trigger] matrix@[k])@ == filled1(z, d as nat).update(k, o),
        {
            let mut row = repeat1(z, d);
            row.set(i, o);
            matrix.push(row);
        }
        assert(view2(matrix) =~~= diagonal(o, z, d as nat));
        assert(converts_to(1u8, o) && converts_to(0u8, z) && view2(matrix) == diagonal(
            o,
            z,
            d as nat,
        ));
        matrix
    }

    fn t2_transpose(a: Self::T2Repr) -> (r: Self::T2Repr) where T: From<u8> + Copy {
        let d0: usize = a.len();
        let d1: usize = a[0].len();
        let mut result: Vec<Vec<T>> = Vec::new();
        for j in 0..d1
            invariant
                d0 == a@.len(),
                is_matrix(view2(a), d0 as nat, d1 as nat),
                result@.len() == j,
                forall|c: int|
                    0 <= c < j ==> (#[trigger] result@[c])@ == Seq::new(
                        d0 as nat,
                        |i: int| view2(a)[i][c],
                    ),
        {
            let mut row: Vec<T> = Vec::new();
            for i in 0..d0
                invariant
                    d0 == a@.len(),
                    j < d1,
                    is_matrix(view2(a), d0 as nat, d1 as nat),
                    row@.len() == i,
                    forall|k: int| 0 <= k < i ==> #[trigger] row@[k] == view2(a)[k][j as int],
            {
                assert(view2(a)[i as int].len() == d1);
                row.push(a[i][j]);
            }
            assert(row@ =~= Seq::new(d0 as nat, |i: int| view2(a)[i][j as int]));
            result.push(row);
        }
        assert(view2(result) =~= transposed(view2(a), d0 as nat, d1 as nat));
        result
    }

    fn t3_permute(a: Self::T3Repr, p: (Dimension, Dimension, Dimension)) -> (r:
        Self::T3Repr) where T: From<u8> + Copy {
        assert(view3(a)[0] == view2(a@[0]));
        assert(view2(a@[0])[0] == a@[0]@[0]@);
        let d: (usize, usize, usize) = (a.len(), a[0].len(), a[0][0].len());
        let ghost shape = (d.0 as nat, d.1 as nat, d.2 as nat);
        let e0: usize = component(d, p.0);
        let e1: usize = component(d, p.1);
        let e2: usize = component(d, p.2);
        let mut result: Vec<Vec<Vec<T>>> = Vec::new();
        for x in 0..e0
            invariant
                is_perm3(p),
                shape == (d.0 as nat, d.1 as nat, d.2 as nat),
                is_cube(view3(a), d.0 as nat, d.1 as nat, d.2 as nat),
                e0 == nth3(d, p.0 as int),
                e1 == nth3(d, p.1 as int),
                e2 == nth3(d, p.2 as int),
                result@.len() == x,
                forall|u: int|
                    0 <= u < x ==> view2(#[trigger] result@[u]) == permuted3(view3(a), p, shape)[u],
        {
            let mut block: Vec<Vec<T>> = Vec::new();
            for y in 0..e1
                invariant
                    is_perm3(p),
                    shape == (d.0 as nat, d.1 as nat, d.2 as nat),
                    is_cube(view3(a), d.0 as nat, d.1 as nat, d.2 as nat),
                    e0 == nth3(d, p.0 as int),
                    e1 == nth3(d, p.1 as int),
                    e2 == nth3(d, p.2 as int),
                    x < e0,
                    block@.len() == y,
                    forall|v: int|
                        0 <= v < y ==> (#[trigger] block@[v])@ == permuted3(view3(a), p, shape)[x as int][v],
            {
                let mut row: Vec<T> = Vec::new();
                for z in 0..e2
                    invariant
                        is_perm3(p),
                        shape == (d.0 as nat, d.1 as nat, d.2 as nat),
                        is_cube(view3(a), d.0 as nat, d.1 as nat, d.2 as nat),
                        e0 == nth3(d, p.0 as int),
                        e1 == nth3(d, p.1 as int),
                        e2 == nth3(d, p.2 as int),
                        x < e0,
                        y < e1,
                        row@.len() == z,
                        forall|w: int|
                            0 <= w < z ==> #[trigger] row@[w] == permuted3(
                                view3(a),
                                p,
                                shape,
                            )[x as int][y as int][w],
                {
                    let i: usize = source(p, (x, y, z), 0);
                    let j: usize = source(p, (x, y, z), 1);
                    let k: usize = source(p, (x, y, z), 2);
                    assert(i < d.0 && j < d.1 && k < d.2);
                    assert(is_matrix(view3(a)[i as int], d.1 as nat, d.2 as nat));
                    assert(view3(a)[i as int][j as int].len() == d.2);
                    row.push(a[i][j][k]);
                }
                assert(row@ =~= permuted3(view3(a), p, shape)[x as int][y as int]);
                block.push(row);
            }
            assert(view2(block) =~= permuted3(view3(a), p, shape)[x as int]);
            result.push(block);
        }
        assert(view3(result) =~= permuted3(view3(a), p, shape));
        result
    }

    fn t0_t0_add(a: Self::T0Repr, b: Self::T0Repr) -> (r: Self::T0Repr) where T: Add<Output = T> {
        a + b
    }

    fn t1_t0_add(a: Self::T1Repr, b: Self::T0Repr) -> (r: Self::T1Repr) where
        T: Add<Output = T> + Copy,
     {
        let mut r: Vec<T> = Vec::new();
        for x in it: a.into_iter()
            invariant
                it.seq() == a@,
                r@.len() == it.index(),
                add1_scalar_req(a@, b),
                forall|k: int| 0 <= k < r@.len() ==> sum_of(a@[k], b, #[trigger] r@[k]),
        {
            assert(a@[r@.len() as int].add_req(b));
            r.push(x + b);
        }
        assert(T::obeys_add_spec() ==> r@ =~= add1_scalar(a@, b));
        r
    }

    fn t1_t1_add(a: Self::T1Repr, b: Self::T1Repr) -> (r: Self::T1Repr) where T: Add<Output = T> {
        let mut rest = reversed(b);
        let mut r: Vec<T> = Vec::new();
        for x in it: a.into_iter()
            invariant
                it.seq() == a@,
                a@.len() == b@.len(),
                r@.len() == it.index(),
                rest@.len() + r@.len() == b@.len(),
                forall|k: int| 0 <= k < rest@.len() ==> rest@[k] == b@[b@.len() - 1 - k],
                add1_req(a@, b@),
                forall|k: int| 0 <= k < r@.len() ==> sum_of(a@[k], b@[k], #[trigger] r@[k]),
        {
            let y = rest.pop().unwrap();
            assert(a@[r@.len() as int].add_req(b@[r@.len() as int]));
            r.push(x + y);
        }
        assert(T::obeys_add_spec() ==> r@ =~= add1(a@, b@));
        r
    }

    fn t2_t0_add(a: Self::T2Repr, b: Self::T0Repr) -> (r: Self::T2Repr) where
        T: Add<Output = T> + Copy,
     {
        let mut r: Vec<Vec<T>> = Vec::new();
        for row in it: a.into_iter()
            invariant
                it.seq() == a@,
                r@.len() == it.index(),
                add2_scalar_req(view2(a), b),
                forall|k: int| 0 <= k < r@.len() ==> sums1_scalar(a@[k]@, b, (#[trigger] r@[k])@),
                T::obeys_add_spec() ==> forall|k: int|
                    0 <= k < r@.len() ==> (#[trigger] r@[k])@ == add1_scalar(a@[k]@, b),
        {
            assert(row@ == view2(a)[r@.len() as int]);
            let sum = Self::t1_t0_add(row, b);
            r.push(sum);
        }
        assert(sums2_scalar(view2(a), b, view2(r)));
        assert(T::obeys_add_spec() ==> view2(r) =~= add2_scalar(view2(a), b));
        r
    }

    fn t2_t1_add(a: Self::T2Repr, b: Self::T1Repr, along: Dimension) -> (r: Self::T2Repr) where
        T: Add<Output = T> + Copy,
     {
        let n: usize = a.len();
        let mut r: Vec<Vec<T>> = Vec::new();
        let mut i: usize = 0;
        if along == 0 {
            for row in it: a.into_iter()
                invariant
                    it.seq() == a@,
                    n == a@.len(),
                    i == it.index(),
                    r@.len() == i,
                    a@.len() == b@.len(),
                    add2_along0_req(view2(a), b@),
                    forall|k: int|
                        0 <= k < i ==> sums1_scalar(a@[k]@, b@[k], (#[trigger] r@[k])@),
                    T::obeys_add_spec() ==> forall|k: int|
                        0 <= k < i ==> (#[trigger] r@[k])@ == add1_scalar(a@[k]@, b@[k]),
            {
                assert(row@ == view2(a)[i as int]);
                let sum = Self::t1_t0_add(row, b[i]);
                r.push(sum);
                i = i + 1;
            }
            assert(sums2_along0(view2(a), b@, view2(r)));
            assert(T::obeys_add_spec() ==> view2(r) =~= add2_along0(view2(a), b@));
        } else {
            for row in it: a.into_iter()
                invariant
                    it.seq() == a@,
                    n == a@.len(),
                    i == it.index(),
                    r@.len() == i,
                    is_matrix(view2(a), a@.len(), b@.len()),
                    add2_along1_req(view2(a), b@),
                    forall|k: int| 0 <= k < i ==> sums1(a@[k]@, b@, (#[trigger] r@[k])@),
                    T::obeys_add_spec() ==> forall|k: int|
                        0 <= k < i ==> (#[trigger] r@[k])@ == add1(a@[k]@, b@),
            {
                assert(row@ == view2(a)[i as int]);
                let sum = add_borrowed(row, &b);
                r.push(sum);
                i = i + 1;
            }
            assert(sums2_along1(view2(a), b@, view2(r)));
            assert(T::obeys_add_spec() ==> view2(r) =~= add2_along1(view2(a), b@));
        }
        r
    }

    fn t2_t2_add(a: Self::T2Repr, b: Self::T2Repr) -> (r: Self::T2Repr) where T: Add<Output = T> {
        let mut rest = reversed(b);
        let mut r: Vec<Vec<T>> = Vec::new();
        for row in it: a.into_iter()
            invariant
                it.seq() == a@,
                a@.len() == b@.len(),
                r@.len() == it.index(),
                rest@.len() + r@.len() == b@.len(),
                forall|k: int| 0 <= k < rest@.len() ==> rest@[k] == b@[b@.len() - 1 - k],
                forall|k: int|
                    0 <= k < a@.len() ==> (#[trigger] view2(a)[k]).len() == view2(b)[k].len(),
                add2_req(view2(a), view2(b)),
                forall|k: int| 0 <= k < r@.len() ==> sums1(a@[k]@, b@[k]@, (#[trigger] r@[k])@),
                T::obeys_add_spec() ==> forall|k: int|
                    0 <= k < r@.len() ==> (#[trigger] r@[k])@ == add1(a@[k]@, b@[k]@),
        {
            let other = rest.pop().unwrap();
            assert(row@ == view2(a)[r@.len() as int]);
            assert(other@ == view2(b)[r@.len() as int]);
            let sum = Self::t1_t1_add(row, other);
            r.push(sum);
        }
        assert(sums2(view2(a), view2(b), view2(r)));
        assert(T::obeys_add_spec() ==> view2(r) =~= add2(view2(a), view2(b)));
        r
    }

    fn t1_t1_dot(a: Self::T1Repr, b: Self::T1Repr) -> (r: Self::T0Repr) where
        T: Add<Output = T> + Mul<Output = T> + From<u8>,
     {
        let n: usize = a.len();
        let mut rest = reversed(b);
        let mut acc: T = T::from(0u8);
        let mut i: usize = 0;
        for x in it: a.into_iter()
            invariant
                it.seq() == a@,
                n == a@.len(),
                i == it.index(),
                a@.len() == b@.len(),
                rest@.len() + i == b@.len(),
                forall|k: int| 0 <= k < rest@.len() ==> rest@[k] == b@[b@.len() - 1 - k],
                T::obeys_from_spec(),
                T::obeys_add_spec(),
                T::obeys_mul_spec(),
                dot_req(a@, b@),
                acc == dot_prefix(a@, b@, i as nat),
        {
            let y = rest.pop().unwrap();
            assert(a@[i as int].mul_req(b@[i as int]));
            acc = acc + x * y;
            i = i + 1;
        }
        acc
    }

    fn t2_t2_matmul(a: Self::T2Repr, b: Self::T2Repr) -> (r: Self::T2Repr) where
        T: Add<Output = T> + Mul<Output = T> + From<u8> + Copy,
     {
        let m: usize = a.len();
        let n: usize = b[0].len();
        let inner: usize = b.len();
        let mut result: Vec<Vec<T>> = Vec::new();
        for i in 0..m
            invariant
                m == a@.len(),
                inner == b@.len(),
                is_matrix(view2(a), m as nat, inner as nat),
                is_matrix(view2(b), inner as nat, n as nat),
                T::obeys_from_spec(),
                T::obeys_add_spec(),
                T::obeys_mul_spec(),
                matmul_req(view2(a), view2(b), n as nat),
                result@.len() == i,
                forall|u: int|
                    0 <= u < i ==> (#[trigger] result@[u])@ == matmul(view2(a), view2(b), n as nat)[u],
        {
            let mut row: Vec<T> = Vec::new();
            for j in 0..n
                invariant
                    m == a@.len(),
                    inner == b@.len(),
                    i < m,
                    is_matrix(view2(a), m as nat, inner as nat),
                    is_matrix(view2(b), inner as nat, n as nat),
                    T::obeys_from_spec(),
                    T::obeys_add_spec(),
                    T::obeys_mul_spec(),
                    matmul_req(view2(a), view2(b), n as nat),
                    row@.len() == j,
                    forall|v: int|
                        0 <= v < j ==> #[trigger] row@[v] == dot(view2(a)[i as int], column(view2(b), v)),
            {
                let mut acc: T = T::from(0u8);
                assert(dot_req(view2(a)[i as int], column(view2(b), j as int)));
                assert(view2(a)[i as int].len() == inner);
                for k in 0..inner
                    invariant
                        m == a@.len(),
                        inner == b@.len(),
                        i < m,
                        j < n,
                        is_matrix(view2(a), m as nat, inner as nat),
                        is_matrix(view2(b), inner as nat, n as nat),
                        T::obeys_add_spec(),
                        T::obeys_mul_spec(),
                        view2(a)[i as int].len() == inner,
                        dot_req(view2(a)[i as int], column(view2(b), j as int)),
                        acc == dot_prefix(view2(a)[i as int], column(view2(b), j as int), k as nat),
                {
                    assert(view2(b)[k as int].len() == n);
                    assert(column(view2(b), j as int)[k as int] == view2(b)[k as int][j as int]);
                    assert(view2(a)[i as int][k as int].mul_req(column(view2(b), j as int)[k as int]));
                    acc = acc + a[i][k] * b[k][j];
                }
                row.push(acc);
            }
            assert(row@ =~= matmul(view2(a), view2(b), n as nat)[i as int]);
            result.push(row);
        }
        assert(view2(result) =~= matmul(view2(a), view2(b), n as nat));
        result
    }
}

} // verus!
