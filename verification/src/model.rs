//! The mathematical model of tensor data and of the operations on it.
//!
//! Element arithmetic is that of the element type itself: `add_spec`,
//! `mul_spec` and `from_spec` are the specifications that the element type
//! gives for `+`, `*` and the conversion from `u8`. An element type need
//! not obey them. What holds of every element type is stated over the
//! calls themselves: `converts_to` and `sum_of` say that a value is what a
//! conversion or an addition returned.

use vstd::prelude::*;
use vstd::std_specs::convert::FromSpec;
use vstd::std_specs::ops::AddSpec;
use vstd::std_specs::ops::MulSpec;
use std::ops::Add;
use std::ops::Mul;

verus! {

/// The element that the integer 0 converts to.
pub open spec fn zero<T: From<u8>>() -> T {
    T::from_spec(0u8)
}

/// The element that the integer 1 converts to.
pub open spec fn one<T: From<u8>>() -> T {
    T::from_spec(1u8)
}

/// `x` is what the conversion of the integer `n` returned.
pub open spec fn converts_to<T: From<u8>>(n: u8, x: T) -> bool {
    call_ensures(T::from, (n, ), x)
}

/// `s` is what `x + y` returned.
pub open spec fn sum_of<T: Add<Output = T>>(x: T, y: T, s: T) -> bool {
    call_ensures(T::add, (x, y), s)
}

/// `m` has `d0` rows of `d1` elements each.
pub open spec fn is_matrix<T>(m: Seq<Seq<T>>, d0: nat, d1: nat) -> bool {
    &&& m.len() == d0
    &&& forall|i: int| 0 <= i < d0 ==> (#[trigger] m[i]).len() == d1
}

/// `c` has `d0` blocks of `d1` rows of `d2` elements each.
pub open spec fn is_cube<T>(c: Seq<Seq<Seq<T>>>, d0: nat, d1: nat, d2: nat) -> bool {
    &&& c.len() == d0
    &&& forall|i: int| 0 <= i < d0 ==> is_matrix(#[trigger] c[i], d1, d2)
}

/// The vector of `d0` copies of `x`.
pub open spec fn filled1<T>(x: T, d0: nat) -> Seq<T> {
    Seq::new(d0, |i: int| x)
}

/// The `d0` by `d1` matrix whose every element is `x`.
pub open spec fn filled2<T>(x: T, d0: nat, d1: nat) -> Seq<Seq<T>> {
    Seq::new(d0, |i: int| filled1(x, d1))
}

/// The `d0` by `d1` by `d2` tensor whose every element is `x`.
pub open spec fn filled3<T>(x: T, d0: nat, d1: nat, d2: nat) -> Seq<Seq<Seq<T>>> {
    Seq::new(d0, |i: int| filled2(x, d1, d2))
}

/// The `d` by `d` matrix with `o` on the main diagonal and `z` everywhere
/// else.
pub open spec fn diagonal<T>(o: T, z: T, d: nat) -> Seq<Seq<T>> {
    Seq::new(
        d,
        |i: int|
            Seq::new(
                d,
                |j: int|
                    if i == j {
                        o
                    } else {
                        z
                    },
            ),
    )
}

/// The `d` by `d` matrix with `one()` on the main diagonal and `zero()`
/// everywhere else.
pub open spec fn identity_matrix<T: From<u8>>(d: nat) -> Seq<Seq<T>> {
    diagonal(one::<T>(), zero::<T>(), d)
}

/// The transpose of the `d0` by `d1` matrix `a`: the `d1` by `d0` matrix
/// whose element at `(j, i)` is `a[i][j]`.
pub open spec fn transposed<T>(a: Seq<Seq<T>>, d0: nat, d1: nat) -> Seq<Seq<T>> {
    Seq::new(d1, |j: int| Seq::new(d0, |i: int| a[i][j]))
}

/// Component `i` of a triple; the last one for any `i` other than 0 and 1.
pub open spec fn nth3<A>(t: (A, A, A), i: int) -> A {
    if i == 0 {
        t.0
    } else if i == 1 {
        t.1
    } else {
        t.2
    }
}

/// `p` names each of the two axes 0 and 1 once.
pub open spec fn is_perm2(p: (usize, usize)) -> bool {
    p == (0usize, 1usize) || p == (1usize, 0usize)
}

/// `p` names each of the three axes 0, 1 and 2 once.
pub open spec fn is_perm3(p: (usize, usize, usize)) -> bool {
    &&& p.0 < 3 && p.1 < 3 && p.2 < 3
    &&& p.0 != p.1 && p.0 != p.2 && p.1 != p.2
}

/// What stands at output axis `i` when a pair `d`, one value per axis,
/// is permuted by `p`: output axis `i` is input axis `p.i`.
pub open spec fn permuted_extent2<A>(p: (usize, usize), d: (A, A), i: int) -> A {
    let src = if i == 0 {
        p.0
    } else {
        p.1
    };
    if src == 0 {
        d.0
    } else {
        d.1
    }
}

/// What stands at output axis `i` when a triple `d`, one value per axis,
/// is permuted by `p`: output axis `i` is input axis `p.i`.
pub open spec fn permuted_extent3<A>(p: (usize, usize, usize), d: (A, A, A), i: int) -> A {
    nth3(d, nth3(p, i) as int)
}

/// The permutation that undoes `p`: it sends axis `p.i` back to `i`.
pub open spec fn inverse3(p: (usize, usize, usize)) -> (usize, usize, usize) {
    (source3(p, (0usize, 1usize, 2usize), 0), source3(p, (0usize, 1usize, 2usize), 1), source3(
        p,
        (0usize, 1usize, 2usize),
        2,
    ))
}

/// Of the three values `out`, one per output axis, the one that belongs
/// to input axis `axis` under the permutation `p`.
pub open spec fn source3<A>(p: (usize, usize, usize), out: (A, A, A), axis: int) -> A {
    if p.0 == axis {
        out.0
    } else if p.1 == axis {
        out.1
    } else {
        out.2
    }
}

/// The rank-3 tensor `a` of extents `d` with its axes rearranged by `p`:
/// output axis `i` is input axis `p.i`, so the element at output position
/// `(x, y, z)` is the element of `a` whose index along axis `p.0` is `x`,
/// along `p.1` is `y` and along `p.2` is `z`.
pub open spec fn permuted3<T>(
    a: Seq<Seq<Seq<T>>>,
    p: (usize, usize, usize),
    d: (nat, nat, nat),
) -> Seq<Seq<Seq<T>>> {
    Seq::new(
        permuted_extent3(p, d, 0),
        |x: int|
            Seq::new(
                permuted_extent3(p, d, 1),
                |y: int|
                    Seq::new(
                        permuted_extent3(p, d, 2),
                        |z: int|
                            a[source3(p, (x, y, z), 0)][source3(p, (x, y, z), 1)][source3(
                                p,
                                (x, y, z),
                                2,
                            )],
                    ),
            ),
    )
}

/// The matrix `a` of extents `d` with its axes rearranged by `p`: `a`
/// itself for `(0, 1)`, its transpose for `(1, 0)`.
pub open spec fn permuted2<T>(a: Seq<Seq<T>>, p: (usize, usize), d: (nat, nat)) -> Seq<Seq<T>> {
    if p.0 == 0 {
        a
    } else {
        transposed(a, d.0, d.1)
    }
}

/// `r` is as long as `a`, and each of its elements is what adding the
/// elements of `a` and `b` at its place returned.
pub open spec fn sums1<T: Add<Output = T>>(a: Seq<T>, b: Seq<T>, r: Seq<T>) -> bool {
    &&& r.len() == a.len()
    &&& forall|i: int| 0 <= i < a.len() ==> sum_of(a[i], b[i], #[trigger] r[i])
}

/// `r` is as long as `a`, and each of its elements is what adding `s` to
/// the element of `a` at its place returned.
pub open spec fn sums1_scalar<T: Add<Output = T>>(a: Seq<T>, s: T, r: Seq<T>) -> bool {
    &&& r.len() == a.len()
    &&& forall|i: int| 0 <= i < a.len() ==> sum_of(a[i], s, #[trigger] r[i])
}

/// `r` has as many rows as `a`, and each is a sum of the rows of `a` and
/// `b` at its place, in the sense of `sums1`.
pub open spec fn sums2<T: Add<Output = T>>(a: Seq<Seq<T>>, b: Seq<Seq<T>>, r: Seq<Seq<T>>) -> bool {
    &&& r.len() == a.len()
    &&& forall|i: int| 0 <= i < a.len() ==> sums1(a[i], b[i], #[trigger] r[i])
}

/// `r` has as many rows as `a`, and each is the row of `a` at its place
/// with `s` added, in the sense of `sums1_scalar`.
pub open spec fn sums2_scalar<T: Add<Output = T>>(a: Seq<Seq<T>>, s: T, r: Seq<Seq<T>>) -> bool {
    &&& r.len() == a.len()
    &&& forall|i: int| 0 <= i < a.len() ==> sums1_scalar(a[i], s, #[trigger] r[i])
}

/// `r` has as many rows as `a`, and row `i` is row `i` of `a` with `v[i]`
/// added, in the sense of `sums1_scalar`.
pub open spec fn sums2_along0<T: Add<Output = T>>(a: Seq<Seq<T>>, v: Seq<T>, r: Seq<Seq<T>>) -> bool {
    &&& r.len() == a.len()
    &&& forall|i: int| 0 <= i < a.len() ==> sums1_scalar(a[i], v[i], #[trigger] r[i])
}

/// `r` has as many rows as `a`, and each is a sum of the row of `a` at
/// its place and `v`, in the sense of `sums1`.
pub open spec fn sums2_along1<T: Add<Output = T>>(a: Seq<Seq<T>>, v: Seq<T>, r: Seq<Seq<T>>) -> bool {
    &&& r.len() == a.len()
    &&& forall|i: int| 0 <= i < a.len() ==> sums1(a[i], v, #[trigger] r[i])
}

/// Elementwise sum of two vectors, as long as `a`.
pub open spec fn add1<T: Add<Output = T>>(a: Seq<T>, b: Seq<T>) -> Seq<T> {
    Seq::new(a.len(), |i: int| a[i].add_spec(b[i]))
}

/// Each element of `a` may be added to the element of `b` at its place.
pub open spec fn add1_req<T: Add<Output = T>>(a: Seq<T>, b: Seq<T>) -> bool {
    forall|i: int| 0 <= i < a.len() ==> (#[trigger] a[i]).add_req(b[i])
}

/// The vector `a` with `s` added to each element.
pub open spec fn add1_scalar<T: Add<Output = T>>(a: Seq<T>, s: T) -> Seq<T> {
    Seq::new(a.len(), |i: int| a[i].add_spec(s))
}

/// `s` may be added to each element of `a`.
pub open spec fn add1_scalar_req<T: Add<Output = T>>(a: Seq<T>, s: T) -> bool {
    forall|i: int| 0 <= i < a.len() ==> (#[trigger] a[i]).add_req(s)
}

/// Elementwise sum of two matrices, row by row.
pub open spec fn add2<T: Add<Output = T>>(a: Seq<Seq<T>>, b: Seq<Seq<T>>) -> Seq<Seq<T>> {
    Seq::new(a.len(), |i: int| add1(a[i], b[i]))
}

/// Each element of `a` may be added to the element of `b` at its place.
pub open spec fn add2_req<T: Add<Output = T>>(a: Seq<Seq<T>>, b: Seq<Seq<T>>) -> bool {
    forall|i: int| 0 <= i < a.len() ==> add1_req(#[trigger] a[i], b[i])
}

/// The matrix `a` with `s` added to each element.
pub open spec fn add2_scalar<T: Add<Output = T>>(a: Seq<Seq<T>>, s: T) -> Seq<Seq<T>> {
    Seq::new(a.len(), |i: int| add1_scalar(a[i], s))
}

/// `s` may be added to each element of `a`.
pub open spec fn add2_scalar_req<T: Add<Output = T>>(a: Seq<Seq<T>>, s: T) -> bool {
    forall|i: int| 0 <= i < a.len() ==> add1_scalar_req(#[trigger] a[i], s)
}

/// The matrix `a` with `v[i]` added to each element of row `i`: the
/// vector runs along axis 0.
pub open spec fn add2_along0<T: Add<Output = T>>(a: Seq<Seq<T>>, v: Seq<T>) -> Seq<Seq<T>> {
    Seq::new(a.len(), |i: int| add1_scalar(a[i], v[i]))
}

/// `v[i]` may be added to each element of row `i` of `a`.
pub open spec fn add2_along0_req<T: Add<Output = T>>(a: Seq<Seq<T>>, v: Seq<T>) -> bool {
    forall|i: int| 0 <= i < a.len() ==> add1_scalar_req(#[trigger] a[i], v[i])
}

/// The matrix `a` with the vector `v` added to each row: the vector runs
/// along axis 1.
pub open spec fn add2_along1<T: Add<Output = T>>(a: Seq<Seq<T>>, v: Seq<T>) -> Seq<Seq<T>> {
    Seq::new(a.len(), |i: int| add1(a[i], v))
}

/// `v` may be added to each row of `a`.
pub open spec fn add2_along1_req<T: Add<Output = T>>(a: Seq<Seq<T>>, v: Seq<T>) -> bool {
    forall|i: int| 0 <= i < a.len() ==> add1_req(#[trigger] a[i], v)
}

/// The sum of the first `n` pairwise products of `a` and `b`, accumulated
/// from `zero()` in index order.
pub open spec fn dot_prefix<T: Add<Output = T> + Mul<Output = T> + From<u8>>(
    a: Seq<T>,
    b: Seq<T>,
    n: nat,
) -> T
    decreases n,
{
    if n == 0 {
        zero::<T>()
    } else {
        dot_prefix(a, b, (n - 1) as nat).add_spec(a[n - 1].mul_spec(b[n - 1]))
    }
}

/// The dot product of `a` and `b`.
pub open spec fn dot<T: Add<Output = T> + Mul<Output = T> + From<u8>>(a: Seq<T>, b: Seq<T>) -> T {
    dot_prefix(a, b, a.len())
}

/// Every product and every partial sum of the dot product of `a` and `b`
/// may be formed.
pub open spec fn dot_req<T: Add<Output = T> + Mul<Output = T> + From<u8>>(
    a: Seq<T>,
    b: Seq<T>,
) -> bool {
    forall|k: int|
        0 <= k < a.len() ==> (#[trigger] a[k]).mul_req(b[k]) && dot_prefix(a, b, k as nat).add_req(
            a[k].mul_spec(b[k]),
        )
}

/// Column `j` of the matrix `b`.
pub open spec fn column<T>(b: Seq<Seq<T>>, j: int) -> Seq<T> {
    Seq::new(b.len(), |k: int| b[k][j])
}

/// The product of `a` and `b`, where `b` has `n` columns: the element at
/// `(i, j)` is the dot product of row `i` of `a` and column `j` of `b`.
pub open spec fn matmul<T: Add<Output = T> + Mul<Output = T> + From<u8>>(
    a: Seq<Seq<T>>,
    b: Seq<Seq<T>>,
    n: nat,
) -> Seq<Seq<T>> {
    Seq::new(a.len(), |i: int| Seq::new(n, |j: int| dot(a[i], column(b, j))))
}

/// Every dot product of a row of `a` and one of the `n` columns of `b`
/// may be formed.
pub open spec fn matmul_req<T: Add<Output = T> + Mul<Output = T> + From<u8>>(
    a: Seq<Seq<T>>,
    b: Seq<Seq<T>>,
    n: nat,
) -> bool {
    forall|i: int, j: int|
        0 <= i < a.len() && 0 <= j < n ==> dot_req(#[trigger] a[i], #[trigger] column(b, j))
}

/// Element addition gives the same sum in either order. Opaque, as the
/// three laws after it are: `reveal` it to prove it of an element type.
#[verifier::opaque]
pub open spec fn add_is_commutative<T: Add<Output = T>>() -> bool {
    forall|x: T, y: T| #[trigger] x.add_spec(y) == y.add_spec(x)
}

/// Element addition gives the same sum however three terms are grouped.
#[verifier::opaque]
pub open spec fn add_is_associative<T: Add<Output = T>>() -> bool {
    forall|x: T, y: T, z: T| #[trigger] x.add_spec(y).add_spec(z) == x.add_spec(y.add_spec(z))
}

/// Adding `zero()` on either side leaves an element as it is.
pub open spec fn zero_is_neutral<T: Add<Output = T> + From<u8>>() -> bool {
    forall|x: T|
        #![trigger x.add_spec(zero::<T>())]
        #![trigger zero::<T>().add_spec(x)]
        x.add_spec(zero::<T>()) == x && zero::<T>().add_spec(x) == x
}

/// Multiplying by `one()` on either side leaves an element as it is.
pub open spec fn one_is_neutral<T: Mul<Output = T> + From<u8>>() -> bool {
    forall|x: T|
        #![trigger x.mul_spec(one::<T>())]
        #![trigger one::<T>().mul_spec(x)]
        x.mul_spec(one::<T>()) == x && one::<T>().mul_spec(x) == x
}

/// Multiplying by `zero()` on either side gives `zero()`.
pub open spec fn zero_annihilates<T: Mul<Output = T> + From<u8>>() -> bool {
    forall|x: T|
        #![trigger x.mul_spec(zero::<T>())]
        #![trigger zero::<T>().mul_spec(x)]
        x.mul_spec(zero::<T>()) == zero::<T>() && zero::<T>().mul_spec(x) == zero::<T>()
}

/// Element multiplication gives the same product however three factors
/// are grouped.
#[verifier::opaque]
pub open spec fn mul_is_associative<T: Mul<Output = T>>() -> bool {
    forall|x: T, y: T, z: T| #[trigger] x.mul_spec(y).mul_spec(z) == x.mul_spec(y.mul_spec(z))
}

/// Element multiplication distributes over addition from both sides.
#[verifier::opaque]
pub open spec fn mul_distributes<T: Add<Output = T> + Mul<Output = T>>() -> bool {
    &&& forall|x: T, y: T, z: T| #[trigger]
        x.mul_spec(y.add_spec(z)) == x.mul_spec(y).add_spec(x.mul_spec(z))
    &&& forall|x: T, y: T, z: T| #[trigger]
        x.add_spec(y).mul_spec(z) == x.mul_spec(z).add_spec(y.mul_spec(z))
}

/// The element arithmetic is that of a semiring: addition is commutative
/// and associative with `zero()` neutral, multiplication is associative
/// and distributes over addition, and `zero()` annihilates.
pub open spec fn is_semiring<T: Add<Output = T> + Mul<Output = T> + From<u8>>() -> bool {
    &&& add_is_commutative::<T>()
    &&& add_is_associative::<T>()
    &&& zero_is_neutral::<T>()
    &&& mul_is_associative::<T>()
    &&& mul_distributes::<T>()
    &&& zero_annihilates::<T>()
}

} // verus!
