//! What holds of the operations of the model, whatever the backend.
//!
//! The laws of addition and of the matrix product rest on laws of the
//! element arithmetic, which each of them names as a condition.

use vstd::prelude::*;
use vstd::std_specs::ops::AddSpec;
use vstd::std_specs::ops::MulSpec;
use std::ops::Add;
use std::ops::Mul;
use crate::model::add1;
use crate::model::add2;
use crate::model::add_is_associative;
use crate::model::add_is_commutative;
use crate::model::column;
use crate::model::dot;
use crate::model::dot_prefix;
use crate::model::identity_matrix;
use crate::model::inverse3;
use crate::model::is_cube;
use crate::model::is_matrix;
use crate::model::is_perm2;
use crate::model::is_perm3;
use crate::model::is_semiring;
use crate::model::matmul;
use crate::model::mul_distributes;
use crate::model::mul_is_associative;
use crate::model::one;
use crate::model::one_is_neutral;
use crate::model::permuted2;
use crate::model::permuted3;
use crate::model::permuted_extent2;
use crate::model::permuted_extent3;
use crate::model::transposed;
use crate::model::zero;
use crate::model::zero_annihilates;
use crate::model::zero_is_neutral;

verus! {

/// Where element addition is commutative, two scalars add to the same
/// sum in either order.
pub proof fn lemma_add0_commutative<T: Add<Output = T>>(x: T, y: T)
    requires
        add_is_commutative::<T>(),
    ensures
        x.add_spec(y) == y.add_spec(x),
{
    reveal(add_is_commutative);
}

/// Where element addition is associative, three scalars add to the same
/// sum however they are grouped.
pub proof fn lemma_add0_associative<T: Add<Output = T>>(x: T, y: T, z: T)
    requires
        add_is_associative::<T>(),
    ensures
        x.add_spec(y).add_spec(z) == x.add_spec(y.add_spec(z)),
{
    reveal(add_is_associative);
}

/// Three given elements multiply to the same product however they are
/// grouped.
proof fn lemma_mul_associates<T: Mul<Output = T>>(x: T, y: T, z: T)
    requires
        mul_is_associative::<T>(),
    ensures
        x.mul_spec(y).mul_spec(z) == x.mul_spec(y.mul_spec(z)),
{
    reveal(mul_is_associative);
}

/// Multiplication by a given element distributes over a given sum.
proof fn lemma_mul_distributes<T: Add<Output = T> + Mul<Output = T>>(x: T, y: T, z: T)
    requires
        mul_distributes::<T>(),
    ensures
        x.mul_spec(y.add_spec(z)) == x.mul_spec(y).add_spec(x.mul_spec(z)),
        x.add_spec(y).mul_spec(z) == x.mul_spec(z).add_spec(y.mul_spec(z)),
{
    reveal(mul_distributes);
}

/// Where element addition is commutative, so is the elementwise sum of
/// two vectors of one length.
pub proof fn lemma_add1_commutative<T: Add<Output = T>>(a: Seq<T>, b: Seq<T>)
    requires
        a.len() == b.len(),
        add_is_commutative::<T>(),
    ensures
        add1(a, b) == add1(b, a),
{
    assert forall|i: int| 0 <= i < a.len() implies add1(a, b)[i] == add1(b, a)[i] by {
        lemma_add0_commutative(a[i], b[i]);
    }
    assert(add1(a, b) =~= add1(b, a));
}

/// Where element addition is associative, so is the elementwise sum of
/// three vectors of one length.
pub proof fn lemma_add1_associative<T: Add<Output = T>>(a: Seq<T>, b: Seq<T>, c: Seq<T>)
    requires
        a.len() == b.len(),
        b.len() == c.len(),
        add_is_associative::<T>(),
    ensures
        add1(add1(a, b), c) == add1(a, add1(b, c)),
{
    assert forall|i: int| 0 <= i < a.len() implies add1(add1(a, b), c)[i] == add1(
        a,
        add1(b, c),
    )[i] by {
        lemma_add0_associative(a[i], b[i], c[i]);
    }
    assert(add1(add1(a, b), c) =~= add1(a, add1(b, c)));
}

/// Where element addition is commutative, so is the elementwise sum of
/// two matrices of one shape.
pub proof fn lemma_add2_commutative<T: Add<Output = T>>(
    a: Seq<Seq<T>>,
    b: Seq<Seq<T>>,
    d0: nat,
    d1: nat,
)
    requires
        is_matrix(a, d0, d1),
        is_matrix(b, d0, d1),
        add_is_commutative::<T>(),
    ensures
        add2(a, b) == add2(b, a),
{
    assert forall|i: int| 0 <= i < d0 implies add1(a[i], b[i]) == add1(b[i], a[i]) by {
        lemma_add1_commutative(a[i], b[i]);
    }
    assert(add2(a, b) =~= add2(b, a));
}

/// Where element addition is associative, so is the elementwise sum of
/// three matrices of one shape.
pub proof fn lemma_add2_associative<T: Add<Output = T>>(
    a: Seq<Seq<T>>,
    b: Seq<Seq<T>>,
    c: Seq<Seq<T>>,
    d0: nat,
    d1: nat,
)
    requires
        is_matrix(a, d0, d1),
        is_matrix(b, d0, d1),
        is_matrix(c, d0, d1),
        add_is_associative::<T>(),
    ensures
        add2(add2(a, b), c) == add2(a, add2(b, c)),
{
    assert forall|i: int| 0 <= i < d0 implies add1(add1(a[i], b[i]), c[i]) == add1(
        a[i],
        add1(b[i], c[i]),
    ) by {
        lemma_add1_associative(a[i], b[i], c[i]);
    }
    assert(add2(add2(a, b), c) =~= add2(a, add2(b, c)));
}

/// Transposing a matrix twice gives the matrix back.
pub proof fn lemma_transpose_twice<T>(a: Seq<Seq<T>>, d0: nat, d1: nat)
    requires
        is_matrix(a, d0, d1),
    ensures
        is_matrix(transposed(a, d0, d1), d1, d0),
        transposed(transposed(a, d0, d1), d1, d0) == a,
{
    assert(transposed(transposed(a, d0, d1), d1, d0) =~~= a);
}

/// Each permutation of the two axes of a matrix undoes itself: applied
/// twice, it gives the matrix back.
pub proof fn lemma_permute2_inverse<T>(a: Seq<Seq<T>>, p: (usize, usize), d: (nat, nat))
    requires
        is_matrix(a, d.0, d.1),
        is_perm2(p),
    ensures
        is_matrix(permuted2(a, p, d), permuted_extent2(p, d, 0), permuted_extent2(p, d, 1)),
        permuted2(permuted2(a, p, d), p, (permuted_extent2(p, d, 0), permuted_extent2(p, d, 1)))
            == a,
{
    lemma_transpose_twice(a, d.0, d.1);
}

/// The permutation that leaves each axis in its place leaves a rank-3
/// tensor as it is.
pub proof fn lemma_permute3_identity<T>(a: Seq<Seq<Seq<T>>>, d: (nat, nat, nat))
    requires
        is_cube(a, d.0, d.1, d.2),
    ensures
        permuted3(a, (0usize, 1usize, 2usize), d) == a,
{
    assert(permuted3(a, (0usize, 1usize, 2usize), d) =~~= a);
}

/// Permuting the axes of a rank-3 tensor moves each element to a place
/// of its own: permuting the result by the inverse permutation gives the
/// tensor back, for each of the six permutations.
pub proof fn lemma_permute3_inverse<T>(
    a: Seq<Seq<Seq<T>>>,
    p: (usize, usize, usize),
    d: (nat, nat, nat),
)
    requires
        is_cube(a, d.0, d.1, d.2),
        is_perm3(p),
    ensures
        is_perm3(inverse3(p)),
        is_cube(
            permuted3(a, p, d),
            permuted_extent3(p, d, 0),
            permuted_extent3(p, d, 1),
            permuted_extent3(p, d, 2),
        ),
        permuted3(
            permuted3(a, p, d),
            inverse3(p),
            (permuted_extent3(p, d, 0), permuted_extent3(p, d, 1), permuted_extent3(p, d, 2)),
        ) == a,
{
    let e = (permuted_extent3(p, d, 0), permuted_extent3(p, d, 1), permuted_extent3(p, d, 2));
    assert(permuted3(permuted3(a, p, d), inverse3(p), e) =~~= a);
}

/// The dot product of a row with column `j` of the identity matrix picks
/// element `j` of the row: the partial sum is `zero()` up to `j` and the
/// element from there on.
proof fn lemma_dot_identity_column<T: Add<Output = T> + Mul<Output = T> + From<u8>>(
    row: Seq<T>,
    j: int,
    n: nat,
)
    requires
        0 <= j < row.len(),
        n <= row.len(),
        zero_is_neutral::<T>(),
        one_is_neutral::<T>(),
        zero_annihilates::<T>(),
    ensures
        dot_prefix(row, column(identity_matrix::<T>(row.len()), j), n) == if n <= j {
            zero::<T>()
        } else {
            row[j]
        },
    decreases n,
{
    if n > 0 {
        lemma_dot_identity_column(row, j, (n - 1) as nat);
        let unit = column(identity_matrix::<T>(row.len()), j);
        assert(unit[n - 1] == if n - 1 == j {
            one::<T>()
        } else {
            zero::<T>()
        });
    }
}

/// The dot product of row `i` of the identity matrix with a column picks
/// element `i` of the column.
proof fn lemma_dot_identity_row<T: Add<Output = T> + Mul<Output = T> + From<u8>>(
    col: Seq<T>,
    i: int,
    n: nat,
)
    requires
        0 <= i < col.len(),
        n <= col.len(),
        zero_is_neutral::<T>(),
        one_is_neutral::<T>(),
        zero_annihilates::<T>(),
    ensures
        dot_prefix(identity_matrix::<T>(col.len())[i], col, n) == if n <= i {
            zero::<T>()
        } else {
            col[i]
        },
    decreases n,
{
    if n > 0 {
        lemma_dot_identity_row(col, i, (n - 1) as nat);
    }
}

/// The identity matrix is neutral on the right of the matrix product,
/// where `zero()` and `one()` are neutral for element addition and
/// multiplication and `zero()` annihilates.
pub proof fn lemma_matmul_identity_right<T: Add<Output = T> + Mul<Output = T> + From<u8>>(
    a: Seq<Seq<T>>,
    d0: nat,
    d1: nat,
)
    requires
        is_matrix(a, d0, d1),
        zero_is_neutral::<T>(),
        one_is_neutral::<T>(),
        zero_annihilates::<T>(),
    ensures
        matmul(a, identity_matrix::<T>(d1), d1) == a,
{
    let product = matmul(a, identity_matrix::<T>(d1), d1);
    assert forall|i: int, j: int| 0 <= i < d0 && 0 <= j < d1 implies #[trigger] product[i][j]
        == a[i][j] by {
        lemma_dot_identity_column(a[i], j, d1);
    }
    assert(product =~~= a);
}

/// The identity matrix is neutral on the left of the matrix product,
/// where `zero()` and `one()` are neutral for element addition and
/// multiplication and `zero()` annihilates.
pub proof fn lemma_matmul_identity_left<T: Add<Output = T> + Mul<Output = T> + From<u8>>(
    a: Seq<Seq<T>>,
    d0: nat,
    d1: nat,
)
    requires
        is_matrix(a, d0, d1),
        zero_is_neutral::<T>(),
        one_is_neutral::<T>(),
        zero_annihilates::<T>(),
    ensures
        matmul(identity_matrix::<T>(d0), a, d1) == a,
{
    let product = matmul(identity_matrix::<T>(d0), a, d1);
    assert forall|i: int, j: int| 0 <= i < d0 && 0 <= j < d1 implies #[trigger] product[i][j]
        == a[i][j] by {
        lemma_dot_identity_row(column(a, j), i, d0);
    }
    assert(product =~~= a);
}

/// The sum of `f(0)` to `f(n - 1)`, accumulated from `zero()` in index
/// order.
pub open spec fn sum_to<T: Add<Output = T> + From<u8>>(f: spec_fn(int) -> T, n: nat) -> T
    decreases n,
{
    if n == 0 {
        zero::<T>()
    } else {
        sum_to(f, (n - 1) as nat).add_spec(f(n - 1))
    }
}

/// The products of the elements of `x` and `y`, place by place.
pub open spec fn products<T: Mul<Output = T>>(x: Seq<T>, y: Seq<T>) -> spec_fn(int) -> T {
    |t: int| x[t].mul_spec(y[t])
}

/// Row `k` of a doubly indexed family.
pub open spec fn row_of<T>(g: spec_fn(int, int) -> T, k: int) -> spec_fn(int) -> T {
    |l: int| g(k, l)
}

/// Column `l` of a doubly indexed family.
pub open spec fn column_of<T>(g: spec_fn(int, int) -> T, l: int) -> spec_fn(int) -> T {
    |k: int| g(k, l)
}

/// The sums of the first `n` elements of each row of `g`.
pub open spec fn row_sums<T: Add<Output = T> + From<u8>>(
    g: spec_fn(int, int) -> T,
    n: nat,
) -> spec_fn(int) -> T {
    |k: int| sum_to(row_of(g, k), n)
}

/// The sums of the first `n` elements of each column of `g`.
pub open spec fn column_sums<T: Add<Output = T> + From<u8>>(
    g: spec_fn(int, int) -> T,
    n: nat,
) -> spec_fn(int) -> T {
    |l: int| sum_to(column_of(g, l), n)
}

/// A dot product is the sum of the pairwise products.
proof fn lemma_dot_is_sum<T: Add<Output = T> + Mul<Output = T> + From<u8>>(
    a: Seq<T>,
    b: Seq<T>,
    n: nat,
)
    ensures
        dot_prefix(a, b, n) == sum_to(products(a, b), n),
    decreases n,
{
    if n > 0 {
        lemma_dot_is_sum(a, b, (n - 1) as nat);
    }
}

/// Sums of families that agree on the first `n` indices are equal.
proof fn lemma_sum_congruent<T: Add<Output = T> + From<u8>>(
    f: spec_fn(int) -> T,
    g: spec_fn(int) -> T,
    n: nat,
)
    requires
        forall|k: int| 0 <= k < n ==> #[trigger] f(k) == g(k),
    ensures
        sum_to(f, n) == sum_to(g, n),
    decreases n,
{
    if n > 0 {
        lemma_sum_congruent(f, g, (n - 1) as nat);
    }
}

/// A sum of zeros is zero.
proof fn lemma_sum_zero<T: Add<Output = T> + From<u8>>(f: spec_fn(int) -> T, n: nat)
    requires
        forall|k: int| 0 <= k < n ==> #[trigger] f(k) == zero::<T>(),
        zero_is_neutral::<T>(),
    ensures
        sum_to(f, n) == zero::<T>(),
    decreases n,
{
    if n > 0 {
        lemma_sum_zero(f, (n - 1) as nat);
    }
}

/// The sum of the elementwise sums of two families is the sum of their
/// sums.
proof fn lemma_sum_add<T: Add<Output = T> + From<u8>>(
    f: spec_fn(int) -> T,
    g: spec_fn(int) -> T,
    h: spec_fn(int) -> T,
    n: nat,
)
    requires
        forall|k: int| 0 <= k < n ==> #[trigger] h(k) == f(k).add_spec(g(k)),
        add_is_commutative::<T>(),
        add_is_associative::<T>(),
        zero_is_neutral::<T>(),
    ensures
        sum_to(h, n) == sum_to(f, n).add_spec(sum_to(g, n)),
    decreases n,
{
    if n > 0 {
        lemma_sum_add(f, g, h, (n - 1) as nat);
        let sf = sum_to(f, (n - 1) as nat);
        let sg = sum_to(g, (n - 1) as nat);
        let x = f(n - 1);
        let y = g(n - 1);
        assert(sum_to(h, n) == sf.add_spec(sg).add_spec(x.add_spec(y)));
        lemma_add0_associative(sf, sg, x.add_spec(y));
        lemma_add0_associative(sg, x, y);
        lemma_add0_commutative(sg, x);
        lemma_add0_associative(x, sg, y);
        lemma_add0_associative(sf, x, sg.add_spec(y));
    } else {
        assert(zero::<T>().add_spec(zero::<T>()) == zero::<T>());
    }
}

/// Multiplication on the right distributes over a sum.
proof fn lemma_sum_mul_right<T: Add<Output = T> + Mul<Output = T> + From<u8>>(
    f: spec_fn(int) -> T,
    c: T,
    h: spec_fn(int) -> T,
    n: nat,
)
    requires
        forall|k: int| 0 <= k < n ==> #[trigger] h(k) == f(k).mul_spec(c),
        is_semiring::<T>(),
    ensures
        sum_to(h, n) == sum_to(f, n).mul_spec(c),
    decreases n,
{
    if n > 0 {
        lemma_sum_mul_right(f, c, h, (n - 1) as nat);
        let sf = sum_to(f, (n - 1) as nat);
        lemma_mul_distributes(sf, f(n - 1), c);
    } else {
        assert(zero::<T>().mul_spec(c) == zero::<T>());
    }
}

/// Multiplication on the left distributes over a sum.
proof fn lemma_sum_mul_left<T: Add<Output = T> + Mul<Output = T> + From<u8>>(
    f: spec_fn(int) -> T,
    c: T,
    h: spec_fn(int) -> T,
    n: nat,
)
    requires
        forall|k: int| 0 <= k < n ==> #[trigger] h(k) == c.mul_spec(f(k)),
        is_semiring::<T>(),
    ensures
        sum_to(h, n) == c.mul_spec(sum_to(f, n)),
    decreases n,
{
    if n > 0 {
        lemma_sum_mul_left(f, c, h, (n - 1) as nat);
        let sf = sum_to(f, (n - 1) as nat);
        lemma_mul_distributes(c, sf, f(n - 1));
    } else {
        assert(c.mul_spec(zero::<T>()) == zero::<T>());
    }
}

/// A double sum may be taken row by row or column by column.
proof fn lemma_sum_swap<T: Add<Output = T> + From<u8>>(g: spec_fn(int, int) -> T, n1: nat, n2: nat)
    requires
        add_is_commutative::<T>(),
        add_is_associative::<T>(),
        zero_is_neutral::<T>(),
    ensures
        sum_to(row_sums(g, n2), n1) == sum_to(column_sums(g, n1), n2),
    decreases n1,
{
    if n1 > 0 {
        let before = (n1 - 1) as nat;
        lemma_sum_swap(g, before, n2);
        lemma_sum_add(column_sums(g, before), row_of(g, n1 - 1), column_sums(g, n1), n2);
    } else {
        lemma_sum_zero(column_sums(g, 0), n2);
    }
}

/// The products `a[i][k] * b[k][l] * c[l][j]` over `k` and `l`: the terms
/// of element `(i, j)` of a product of three matrices.
pub open spec fn triple_products<T: Mul<Output = T>>(
    a: Seq<Seq<T>>,
    b: Seq<Seq<T>>,
    c: Seq<Seq<T>>,
    i: int,
    j: int,
) -> spec_fn(int, int) -> T {
    |k: int, l: int| a[i][k].mul_spec(b[k][l]).mul_spec(c[l][j])
}

/// Element `(i, j)` of a product of three matrices is the same however
/// the product is grouped.
proof fn lemma_matmul_associative_at<T: Add<Output = T> + Mul<Output = T> + From<u8>>(
    a: Seq<Seq<T>>,
    b: Seq<Seq<T>>,
    c: Seq<Seq<T>>,
    d: (nat, nat, nat, nat),
    i: int,
    j: int,
)
    requires
        is_matrix(a, d.0, d.1),
        is_matrix(b, d.1, d.2),
        is_matrix(c, d.2, d.3),
        0 <= i < d.0,
        0 <= j < d.3,
        is_semiring::<T>(),
    ensures
        dot(matmul(a, b, d.2)[i], column(c, j)) == dot(a[i], column(matmul(b, c, d.3), j)),
{
    let g = triple_products(a, b, c, i, j);
    let ab = matmul(a, b, d.2);
    let bc = matmul(b, c, d.3);
    let left = products(ab[i], column(c, j));
    let right = products(a[i], column(bc, j));
    assert forall|l: int| 0 <= l < d.2 implies #[trigger] left(l) == column_sums(g, d.1)(l) by {
        lemma_dot_is_sum(a[i], column(b, l), d.1);
        lemma_sum_mul_right(products(a[i], column(b, l)), c[l][j], column_of(g, l), d.1);
    }
    assert forall|k: int| 0 <= k < d.1 implies #[trigger] right(k) == row_sums(g, d.2)(k) by {
        lemma_dot_is_sum(b[k], column(c, j), d.2);
        assert forall|l: int| 0 <= l < d.2 implies #[trigger] row_of(g, k)(l) == a[i][k].mul_spec(
            products(b[k], column(c, j))(l),
        ) by {
            lemma_mul_associates(a[i][k], b[k][l], c[l][j]);
        }
        lemma_sum_mul_left(products(b[k], column(c, j)), a[i][k], row_of(g, k), d.2);
    }
    lemma_dot_is_sum(ab[i], column(c, j), d.2);
    lemma_sum_congruent(left, column_sums(g, d.1), d.2);
    lemma_dot_is_sum(a[i], column(bc, j), d.1);
    lemma_sum_congruent(right, row_sums(g, d.2), d.1);
    lemma_sum_swap(g, d.1, d.2);
}

/// The matrix product is associative where the element arithmetic is
/// that of a semiring: for `a` of shape `d.0` by `d.1`, `b` of shape `d.1`
/// by `d.2` and `c` of shape `d.2` by `d.3`, `(a b) c` is `a (b c)`.
pub proof fn lemma_matmul_associative<T: Add<Output = T> + Mul<Output = T> + From<u8>>(
    a: Seq<Seq<T>>,
    b: Seq<Seq<T>>,
    c: Seq<Seq<T>>,
    d: (nat, nat, nat, nat),
)
    requires
        is_matrix(a, d.0, d.1),
        is_matrix(b, d.1, d.2),
        is_matrix(c, d.2, d.3),
        is_semiring::<T>(),
    ensures
        matmul(matmul(a, b, d.2), c, d.3) == matmul(a, matmul(b, c, d.3), d.3),
{
    let left = matmul(matmul(a, b, d.2), c, d.3);
    let right = matmul(a, matmul(b, c, d.3), d.3);
    assert forall|i: int, j: int| 0 <= i < d.0 && 0 <= j < d.3 implies #[trigger] left[i][j]
        == right[i][j] by {
        lemma_matmul_associative_at(a, b, c, d, i, j);
    }
    assert(left =~~= right);
}

} // verus!
