use tensr::backend::basic::Backend;
use tensr::backend::Backend as BackendTrait;

#[test]
fn test_t0_zero() {
    let zero: u8 = Backend::t0_zero();
    assert_eq!(zero, 0);
}

#[test]
fn test_t0_one() {
    let one: u8 = Backend::t0_one();
    assert_eq!(one, 1);
}

#[test]
fn test_t1_zeros() {
    let zeros: Vec<u8> = Backend::t1_zeros(3);
    assert_eq!(zeros, vec![0, 0, 0]);
}

#[test]
fn test_t1_ones() {
    let ones: Vec<u8> = Backend::t1_ones(3);
    assert_eq!(ones, vec![1, 1, 1]);
}

#[test]
fn test_t2_zeros() {
    let zeros: Vec<Vec<u8>> = Backend::t2_zeros(2, 3);
    assert_eq!(zeros, vec![vec![0, 0, 0], vec![0, 0, 0]]);
}

#[test]
fn test_t2_ones() {
    let ones: Vec<Vec<u8>> = Backend::t2_ones(2, 3);
    assert_eq!(ones, vec![vec![1, 1, 1], vec![1, 1, 1]]);
}

#[test]
fn test_t3_zeros() {
    let zeros: Vec<Vec<Vec<u8>>> = Backend::t3_zeros(2, 3, 4);
    assert_eq!(
        zeros,
        vec![
            vec![vec![0, 0, 0, 0], vec![0, 0, 0, 0], vec![0, 0, 0, 0]],
            vec![vec![0, 0, 0, 0], vec![0, 0, 0, 0], vec![0, 0, 0, 0]]
        ]
    );
}

#[test]
fn test_t3_ones() {
    let ones: Vec<Vec<Vec<u8>>> = Backend::t3_ones(2, 3, 4);
    assert_eq!(
        ones,
        vec![
            vec![vec![1, 1, 1, 1], vec![1, 1, 1, 1], vec![1, 1, 1, 1]],
            vec![vec![1, 1, 1, 1], vec![1, 1, 1, 1], vec![1, 1, 1, 1]]
        ]
    );
}

#[test]
fn test_t2_identity() {
    let eye: Vec<Vec<u8>> = Backend::t2_identity(3);
    assert_eq!(eye, vec![vec![1, 0, 0], vec![0, 1, 0], vec![0, 0, 1]]);
}

#[test]
fn test_t2_transpose() {
    assert_eq!(
        Backend::t2_transpose(vec![vec![1, 2, 3], vec![4, 5, 6]]),
        vec![vec![1, 4], vec![2, 5], vec![3, 6]]
    );
}

#[test]
fn test_t3_permute() {
    let input = vec![
        vec![vec![1, 2, 3], vec![4, 5, 6], vec![7, 8, 9]],
        vec![vec![10, 11, 12], vec![13, 14, 15], vec![16, 17, 18]],
    ];
    let permuted = Backend::t3_permute(input, (2, 0, 1));
    let expected = vec![
        vec![vec![1, 4, 7], vec![10, 13, 16]],
        vec![vec![2, 5, 8], vec![11, 14, 17]],
        vec![vec![3, 6, 9], vec![12, 15, 18]],
    ];
    assert_eq!(permuted, expected);
}

#[test]
fn test_t0_t0_add() {
    assert_eq!(Backend::t0_t0_add(1, 2), 3);
}

#[test]
fn test_t1_t0_add() {
    assert_eq!(Backend::t1_t0_add(vec![1, 2, 3], 2), vec![3, 4, 5]);
}

#[test]
fn test_t1_t1_add() {
    assert_eq!(
        Backend::t1_t1_add(vec![1, 2, 3], vec![4, 5, 6]),
        vec![5, 7, 9]
    );
}

#[test]
fn test_t2_t0_add() {
    assert_eq!(
        Backend::t2_t0_add(vec![vec![1, 2, 3], vec![4, 5, 6]], 2),
        vec![vec![3, 4, 5], vec![6, 7, 8]]
    );
}

#[test]
fn test_t2_t1_add_along_0() {
    assert_eq!(
        Backend::t2_t1_add(vec![vec![1, 2, 3], vec![4, 5, 6]], vec![2, 3], 0),
        vec![vec![3, 4, 5], vec![7, 8, 9]]
    );
}

#[test]
fn test_t2_t1_add_along_1() {
    assert_eq!(
        Backend::t2_t1_add(vec![vec![1, 2, 3], vec![4, 5, 6]], vec![2, 3, 4], 1),
        vec![vec![3, 5, 7], vec![6, 8, 10]]
    );
}

#[test]
fn test_t2_t2_add() {
    assert_eq!(
        Backend::t2_t2_add(
            vec![vec![1, 2, 3], vec![4, 5, 6]],
            vec![vec![2, 3, 4], vec![5, 6, 7]]
        ),
        vec![vec![3, 5, 7], vec![9, 11, 13]]
    );
}

#[test]
fn test_t1_t1_dot() {
    assert_eq!(Backend::t1_t1_dot(vec![1, 2, 3], vec![4, 5, 6]), 32);
}

#[test]
fn test_t2_t2_matmul() {
    assert_eq!(
        Backend::t2_t2_matmul(
            vec![vec![1, 2, 3], vec![4, 5, 6]],
            vec![vec![2, 3], vec![4, 5], vec![6, 7]]
        ),
        vec![vec![28, 34], vec![64, 79]]
    );
}
