use tensr::backend::basic::Backend;
use tensr::backend::Backend as BackendTrait;
use tensr::tensor::tensor0::Tensor0;
use tensr::tensor::tensor1::Tensor1;
use tensr::tensor::tensor2::Tensor2;
use tensr::tensor::tensor3::Tensor3;
use tensr::tensor::Matrix;
use tensr::tensor::Scalar;
use tensr::tensor::Tensor;
use tensr::tensor::Vector;

fn sample_cube() -> Vec<Vec<Vec<i32>>> {
    let mut cube = Vec::new();
    let mut next = 0;
    for _ in 0..2 {
        let mut block = Vec::new();
        for _ in 0..3 {
            let mut row = Vec::new();
            for _ in 0..4 {
                row.push(next);
                next += 1;
            }
            block.push(row);
        }
        cube.push(block);
    }
    cube
}

#[test]
fn scalar_zeros_and_ones() {
    let z: Scalar<i32, Backend> = Scalar::zeros();
    let o: Scalar<i32, Backend> = Scalar::ones();
    assert_eq!(*z.data(), 0);
    assert_eq!(*o.data(), 1);
    assert_eq!(z.shape(), ());
}

#[test]
fn vector_zeros_and_ones() {
    let z: Vector<i64, 4> = Vector::zeros();
    let o: Vector<i64, 4> = Vector::ones();
    assert_eq!(*z.data(), vec![0, 0, 0, 0]);
    assert_eq!(*o.data(), vec![1, 1, 1, 1]);
    assert_eq!(z.shape(), 4);
    assert_eq!(o.shape(), 4);
}

#[test]
fn matrix_zeros_and_ones() {
    let z: Matrix<u16, 2, 3> = Matrix::zeros();
    let o: Matrix<u16, 2, 3> = Matrix::ones();
    assert_eq!(*z.data(), vec![vec![0, 0, 0], vec![0, 0, 0]]);
    assert_eq!(*o.data(), vec![vec![1, 1, 1], vec![1, 1, 1]]);
    assert_eq!(z.shape(), (2, 3));
}

#[test]
fn rank3_zeros_and_ones() {
    let z: Tensor3<u8, 2, 1, 2> = Tensor3::zeros();
    let o: Tensor3<u8, 2, 1, 2> = Tensor3::ones();
    assert_eq!(*z.data(), vec![vec![vec![0, 0]], vec![vec![0, 0]]]);
    assert_eq!(*o.data(), vec![vec![vec![1, 1]], vec![vec![1, 1]]]);
    assert_eq!(o.shape(), (2, 1, 2));
}

#[test]
fn zeros_of_float_elements() {
    let z: Matrix<f64, 1, 2> = Matrix::zeros();
    let o: Vector<f32, 2> = Vector::ones();
    assert_eq!(*z.data(), vec![vec![0.0, 0.0]]);
    assert_eq!(*o.data(), vec![1.0, 1.0]);
}

#[test]
fn zero_extents_give_empty_data() {
    let v: Vector<i32, 0> = Vector::zeros();
    assert_eq!(*v.data(), Vec::<i32>::new());
    let m: Matrix<i32, 0, 3> = Matrix::ones();
    assert_eq!(*m.data(), Vec::<Vec<i32>>::new());
    let n: Matrix<i32, 2, 0> = Matrix::ones();
    assert_eq!(*n.data(), vec![Vec::<i32>::new(), Vec::<i32>::new()]);
    assert_eq!(n.shape(), (2, 0));
}

#[test]
fn identity_of_each_small_extent() {
    let one: Matrix<i32, 1, 1> = Matrix::identity();
    assert_eq!(*one.data(), vec![vec![1]]);
    let two: Matrix<i32, 2, 2> = Matrix::identity();
    assert_eq!(*two.data(), vec![vec![1, 0], vec![0, 1]]);
    let four: Matrix<u8, 4, 4> = Matrix::identity();
    assert_eq!(
        *four.data(),
        vec![
            vec![1, 0, 0, 0],
            vec![0, 1, 0, 0],
            vec![0, 0, 1, 0],
            vec![0, 0, 0, 1]
        ]
    );
    assert_eq!(four.shape(), (4, 4));
    let none: Vec<Vec<i32>> = Backend::t2_identity(0);
    assert_eq!(none, Vec::<Vec<i32>>::new());
}

#[test]
fn scalar_add() {
    let a: Scalar<i32, Backend> = Scalar::ones();
    let b: Scalar<i32, Backend> = Scalar::ones();
    let c: Scalar<i32, Backend> = Scalar::zeros();
    let sum = a + b + c;
    assert_eq!(*sum.data(), 2);
}

#[test]
fn scalar_permute_is_identity() {
    let a: Tensor0<i32, Backend> = Tensor0::ones();
    let b = a.permute();
    assert_eq!(*b.data(), 1);
    assert_eq!(b.shape(), ());
}

#[test]
fn vector_add_vector_and_scalar() {
    let a: Vector<i32, 3> = Vector::ones();
    let b: Vector<i32, 3> = Vector::ones();
    let s: Scalar<i32, Backend> = Scalar::ones();
    let sum = a + b;
    assert_eq!(*sum.data(), vec![2, 2, 2]);
    let more = sum + s;
    assert_eq!(*more.data(), vec![3, 3, 3]);
    assert_eq!(more.shape(), 3);
}

#[test]
fn vector_dot() {
    let a: Vector<i32, 5> = Vector::ones();
    let b: Vector<i32, 5> = Vector::ones();
    let two = a + b;
    let c: Vector<i32, 5> = Vector::ones();
    let d = two.dot(c);
    assert_eq!(*d.data(), 10);
    let e: Vector<i32, 0> = Vector::ones();
    let f: Vector<i32, 0> = Vector::ones();
    assert_eq!(*e.dot(f).data(), 0);
}

#[test]
fn vector_permute_is_identity() {
    let a: Tensor1<i32, 3> = Tensor1::ones();
    let b = a.permute::<0>();
    assert_eq!(*b.data(), vec![1, 1, 1]);
    assert_eq!(b.shape(), 3);
}

#[test]
fn vector_shape_arithmetic() {
    assert_eq!(<Tensor1<i32, 3>>::construct_shape(7), (7,));
    assert_eq!(<Tensor1<i32, 3>>::calculate_permute((0,), (7,), 0), 7);
    assert_eq!(<Tensor1<i32, 3>>::calculate_permute((0,), (7,), 1), 7);
}

#[test]
fn matrix_shape_arithmetic() {
    assert_eq!(<Tensor2<i32, 2, 3>>::construct_shape(4, 5), (4, 5));
    assert_eq!(<Matrix<i32, 2, 3>>::calculate_permute((0, 1), (4, 5), 0), 4);
    assert_eq!(<Matrix<i32, 2, 3>>::calculate_permute((0, 1), (4, 5), 1), 5);
    assert_eq!(<Matrix<i32, 2, 3>>::calculate_permute((1, 0), (4, 5), 0), 5);
    assert_eq!(<Matrix<i32, 2, 3>>::calculate_permute((1, 0), (4, 5), 1), 4);
}

#[test]
fn rank3_shape_arithmetic() {
    assert_eq!(<Tensor3<i32, 1, 1, 1>>::construct_shape(4, 5, 6), (4, 5, 6));
    let d = (4, 5, 6);
    let table = [
        ((0, 1, 2), (4, 5, 6)),
        ((0, 2, 1), (4, 6, 5)),
        ((1, 0, 2), (5, 4, 6)),
        ((1, 2, 0), (5, 6, 4)),
        ((2, 0, 1), (6, 4, 5)),
        ((2, 1, 0), (6, 5, 4)),
    ];
    for (p, e) in table {
        assert_eq!(<Tensor3<i32, 1, 1, 1>>::calculate_permute(p, d, 0), e.0);
        assert_eq!(<Tensor3<i32, 1, 1, 1>>::calculate_permute(p, d, 1), e.1);
        assert_eq!(<Tensor3<i32, 1, 1, 1>>::calculate_permute(p, d, 2), e.2);
    }
}

#[test]
fn permuted_shape_is_the_shape_of_the_permuted_data() {
    let cube = sample_cube();
    let d = (2, 3, 4);
    for p in [(0, 1, 2), (0, 2, 1), (1, 0, 2), (1, 2, 0), (2, 0, 1), (2, 1, 0)] {
        let out = Backend::t3_permute(cube.clone(), p);
        assert_eq!(out.len(), <Tensor3<i32, 2, 3, 4>>::calculate_permute(p, d, 0));
        assert_eq!(out[0].len(), <Tensor3<i32, 2, 3, 4>>::calculate_permute(p, d, 1));
        assert_eq!(out[0][0].len(), <Tensor3<i32, 2, 3, 4>>::calculate_permute(p, d, 2));
    }
}

#[test]
fn matrix_permute_keeps_or_transposes() {
    let a: Matrix<i32, 2, 3> = Matrix::ones();
    let v: Vector<i32, 3> = Vector::ones();
    let a = a + v;
    let same = a.permute::<0, 1, 2, 3>();
    assert_eq!(same.shape(), (2, 3));
    assert_eq!(*same.data(), vec![vec![2, 2, 2], vec![2, 2, 2]]);
    let turned = same.permute::<1, 0, 3, 2>();
    assert_eq!(turned.shape(), (3, 2));
    assert_eq!(*turned.data(), vec![vec![2, 2], vec![2, 2], vec![2, 2]]);
    let back = turned.permute::<1, 0, 2, 3>();
    assert_eq!(back.shape(), (2, 3));
    assert_eq!(*back.data(), vec![vec![2, 2, 2], vec![2, 2, 2]]);
}

#[test]
fn matrix_permute_with_a_zero_extent() {
    let a: Matrix<i32, 0, 3> = Matrix::zeros();
    let t = a.permute::<1, 0, 3, 0>();
    assert_eq!(t.shape(), (3, 0));
    assert_eq!(
        *t.data(),
        vec![Vec::<i32>::new(), Vec::<i32>::new(), Vec::<i32>::new()]
    );
    let b = t.permute::<1, 0, 0, 3>();
    assert_eq!(b.shape(), (0, 3));
    assert_eq!(*b.data(), Vec::<Vec<i32>>::new());
}

#[test]
fn transpose_twice_gives_the_matrix_back() {
    let a = vec![vec![1, 2, 3], vec![4, 5, 6]];
    let t = Backend::t2_transpose(a.clone());
    assert_eq!(t, vec![vec![1, 4], vec![2, 5], vec![3, 6]]);
    assert_eq!(Backend::t2_transpose(t), a);
}

#[test]
fn transpose_of_a_column_and_of_a_row() {
    assert_eq!(
        Backend::t2_transpose(vec![vec![1], vec![2], vec![3]]),
        vec![vec![1, 2, 3]]
    );
    assert_eq!(
        Backend::t2_transpose(vec![vec![1, 2, 3]]),
        vec![vec![1], vec![2], vec![3]]
    );
}

#[test]
fn rank3_permute_then_inverse_gives_the_tensor_back() {
    let cube = sample_cube();
    let pairs = [
        ((0, 1, 2), (0, 1, 2)),
        ((0, 2, 1), (0, 2, 1)),
        ((1, 0, 2), (1, 0, 2)),
        ((1, 2, 0), (2, 0, 1)),
        ((2, 0, 1), (1, 2, 0)),
        ((2, 1, 0), (2, 1, 0)),
    ];
    for (p, q) in pairs {
        let there = Backend::t3_permute(cube.clone(), p);
        let back = Backend::t3_permute(there, q);
        assert_eq!(back, cube);
    }
}

#[test]
fn rank3_permute_places_each_element() {
    let cube = sample_cube();
    let out = Backend::t3_permute(cube.clone(), (1, 2, 0));
    assert_eq!(out.len(), 3);
    assert_eq!(out[0].len(), 4);
    assert_eq!(out[0][0].len(), 2);
    for i in 0..2 {
        for j in 0..3 {
            for k in 0..4 {
                assert_eq!(out[j][k][i], cube[i][j][k]);
            }
        }
    }
    assert_eq!(Backend::t3_permute(cube.clone(), (0, 1, 2)), cube);
}

#[test]
fn rank3_tensor_permute() {
    let a: Tensor3<u8, 2, 3, 4> = Tensor3::ones();
    let b = a.permute::<2, 0, 1, 4, 2, 3>();
    assert_eq!(b.shape(), (4, 2, 3));
    let expected: Vec<Vec<Vec<u8>>> = Backend::t3_ones(4, 2, 3);
    assert_eq!(*b.data(), expected);
    let c = b.permute::<1, 2, 0, 2, 3, 4>();
    assert_eq!(c.shape(), (2, 3, 4));
    let start: Vec<Vec<Vec<u8>>> = Backend::t3_ones(2, 3, 4);
    assert_eq!(*c.data(), start);
}

#[test]
fn rank3_tensor_permute_with_a_zero_extent() {
    let a: Tensor3<u8, 0, 2, 3> = Tensor3::ones();
    let b = a.permute::<1, 0, 2, 2, 0, 3>();
    assert_eq!(b.shape(), (2, 0, 3));
    assert_eq!(
        *b.data(),
        vec![Vec::<Vec<u8>>::new(), Vec::<Vec<u8>>::new()]
    );
    let c: Tensor3<u8, 2, 3, 0> = Tensor3::ones();
    let d = c.permute::<2, 1, 0, 0, 3, 2>();
    assert_eq!(d.shape(), (0, 3, 2));
    assert_eq!(*d.data(), Vec::<Vec<Vec<u8>>>::new());
}

#[test]
fn matrix_add_matrix_vector_and_scalar() {
    let a: Matrix<i32, 2, 3> = Matrix::ones();
    let b: Matrix<i32, 2, 3> = Matrix::ones();
    let sum = a + b;
    assert_eq!(*sum.data(), vec![vec![2, 2, 2], vec![2, 2, 2]]);
    let v: Vector<i32, 3> = Vector::ones();
    let with_vector = sum + v;
    assert_eq!(*with_vector.data(), vec![vec![3, 3, 3], vec![3, 3, 3]]);
    let s: Scalar<i32, Backend> = Scalar::ones();
    let with_scalar = with_vector + s;
    assert_eq!(*with_scalar.data(), vec![vec![4, 4, 4], vec![4, 4, 4]]);
    assert_eq!(with_scalar.shape(), (2, 3));
}

#[test]
fn matrix_add_identity_shows_the_diagonal() {
    let a: Matrix<i32, 3, 3> = Matrix::ones();
    let b: Matrix<i32, 3, 3> = Matrix::identity();
    let c = a.matmul(b);
    let eye: Matrix<i32, 3, 3> = Matrix::identity();
    let d = c + eye;
    assert_eq!(
        *d.data(),
        vec![vec![2, 1, 1], vec![1, 2, 1], vec![1, 1, 2]]
    );
    assert_eq!(d.shape(), (3, 3));
}

#[test]
fn matrix_matmul_shapes_and_values() {
    let a: Matrix<i32, 2, 3> = Matrix::ones();
    let b: Matrix<i32, 3, 4> = Matrix::ones();
    let c = a.matmul(b);
    assert_eq!(c.shape(), (2, 4));
    assert_eq!(*c.data(), vec![vec![3, 3, 3, 3], vec![3, 3, 3, 3]]);
}

#[test]
fn matrix_matmul_with_no_inner_extent_is_zero() {
    let a: Matrix<i32, 2, 0> = Matrix::ones();
    let b: Matrix<i32, 0, 3> = Matrix::ones();
    let c = a.matmul(b);
    assert_eq!(c.shape(), (2, 3));
    assert_eq!(*c.data(), vec![vec![0, 0, 0], vec![0, 0, 0]]);
}

#[test]
fn matmul_identity_is_neutral_on_both_sides() {
    let a = vec![vec![1, 2, 3], vec![4, 5, 6]];
    let right: Vec<Vec<i32>> = Backend::t2_identity(3);
    let left: Vec<Vec<i32>> = Backend::t2_identity(2);
    assert_eq!(Backend::t2_t2_matmul(a.clone(), right), a);
    assert_eq!(Backend::t2_t2_matmul(left, a.clone()), a);
}

#[test]
fn matmul_is_associative_on_an_example() {
    let a = vec![vec![1, 2, 3], vec![4, 5, 6]];
    let b = vec![vec![2, 3], vec![4, 5], vec![6, 7]];
    let c = vec![vec![1, 0, 2, 1], vec![3, 1, 0, 2]];
    let left = Backend::t2_t2_matmul(Backend::t2_t2_matmul(a.clone(), b.clone()), c.clone());
    let right = Backend::t2_t2_matmul(a, Backend::t2_t2_matmul(b, c));
    assert_eq!(left, right);
    assert_eq!(left, vec![vec![130, 34, 56, 96], vec![301, 79, 128, 222]]);
}

#[test]
fn add_is_commutative_and_associative_on_examples() {
    assert_eq!(Backend::t0_t0_add(3, 4), Backend::t0_t0_add(4, 3));
    assert_eq!(
        Backend::t0_t0_add(Backend::t0_t0_add(1, 2), 3),
        Backend::t0_t0_add(1, Backend::t0_t0_add(2, 3))
    );
    let a = vec![1, 2, 3];
    let b = vec![10, 20, 30];
    let c = vec![100, 200, 300];
    assert_eq!(
        Backend::t1_t1_add(a.clone(), b.clone()),
        Backend::t1_t1_add(b.clone(), a.clone())
    );
    assert_eq!(
        Backend::t1_t1_add(Backend::t1_t1_add(a.clone(), b.clone()), c.clone()),
        Backend::t1_t1_add(a, Backend::t1_t1_add(b, c))
    );
    let m = vec![vec![1, 2], vec![3, 4]];
    let n = vec![vec![5, 6], vec![7, 8]];
    let o = vec![vec![9, 10], vec![11, 12]];
    assert_eq!(
        Backend::t2_t2_add(m.clone(), n.clone()),
        Backend::t2_t2_add(n.clone(), m.clone())
    );
    assert_eq!(
        Backend::t2_t2_add(Backend::t2_t2_add(m.clone(), n.clone()), o.clone()),
        Backend::t2_t2_add(m.clone(), Backend::t2_t2_add(n.clone(), o.clone()))
    );
    assert_eq!(
        Backend::t2_t2_add(Backend::t2_t2_add(m, n), o),
        vec![vec![15, 18], vec![21, 24]]
    );
}

#[test]
fn dot_of_empty_vectors_is_zero() {
    assert_eq!(Backend::t1_t1_dot(Vec::<i32>::new(), Vec::<i32>::new()), 0);
}

#[test]
fn dot_keeps_the_order_of_the_operands() {
    assert_eq!(Backend::t1_t1_dot(vec![1, 0, 0], vec![7, 8, 9]), 7);
    assert_eq!(Backend::t1_t1_dot(vec![0, 0, 1], vec![7, 8, 9]), 9);
}

#[test]
fn add_along_axis_1_of_an_empty_matrix() {
    assert_eq!(
        Backend::t2_t1_add(Vec::<Vec<i32>>::new(), vec![1, 2], 1),
        Vec::<Vec<i32>>::new()
    );
}

#[test]
fn elementwise_add_keeps_the_order_of_the_rows() {
    assert_eq!(
        Backend::t2_t2_add(
            vec![vec![1], vec![2], vec![3]],
            vec![vec![10], vec![20], vec![30]]
        ),
        vec![vec![11], vec![22], vec![33]]
    );
    assert_eq!(
        Backend::t1_t1_add(vec![1, 2, 3, 4], vec![10, 20, 30, 40]),
        vec![11, 22, 33, 44]
    );
}

#[test]
fn clone_keeps_shape_and_data() {
    let a: Matrix<i32, 2, 2> = Matrix::identity();
    let b = a.clone();
    assert_eq!(b.shape(), a.shape());
    assert_eq!(*b.data(), *a.data());
}
