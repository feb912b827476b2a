use bounded_types::Matrix;

fn entries(m: &Matrix) -> Vec<Vec<i64>> {
    (0..m.rows()).map(|i| (0..m.cols()).map(|j| m.get(i, j)).collect()).collect()
}

#[test]
fn product_of_two_by_three_and_three_by_four_is_two_by_four() {
    let a = Matrix::from_rows(vec![vec![1, 2, 3], vec![4, 5, 6]], 3);
    let b = Matrix::from_rows(
        vec![vec![1, 0, 0, 1], vec![0, 1, 0, 1], vec![0, 0, 1, 1]],
        4,
    );
    let c = a.mul(b);
    assert_eq!(c.rows(), 2);
    assert_eq!(c.cols(), 4);
    assert_eq!(entries(&c), vec![vec![1, 2, 3, 6], vec![4, 5, 6, 15]]);
}

#[test]
fn product_of_square_matrices() {
    let a = Matrix::from_rows(vec![vec![1, 2], vec![3, 4]], 2);
    let b = Matrix::from_rows(vec![vec![5, 6], vec![7, 8]], 2);
    assert_eq!(entries(&a.mul(b)), vec![vec![19, 22], vec![43, 50]]);
}

#[test]
fn scaling_keeps_the_shape() {
    let a = Matrix::from_rows(vec![vec![1, -2, 3], vec![0, 4, 5]], 3);
    let s = a.scale(-3);
    assert_eq!((s.rows(), s.cols()), (2, 3));
    assert_eq!(entries(&s), vec![vec![-3, 6, -9], vec![0, -12, -15]]);
}

#[test]
fn determinant_of_one_by_one_is_its_entry() {
    let a = Matrix::from_rows(vec![vec![-7]], 1);
    assert_eq!(a.determinant(), -7);
}

#[test]
fn determinant_of_two_by_two() {
    let a = Matrix::from_rows(vec![vec![3, 8], vec![4, 6]], 2);
    assert_eq!(a.determinant(), 3 * 6 - 8 * 4);
}

#[test]
fn determinant_of_three_by_three() {
    let a = Matrix::from_rows(vec![vec![6, 1, 1], vec![4, -2, 5], vec![2, 8, 7]], 3);
    assert_eq!(a.determinant(), -306);
}

#[test]
fn determinant_of_four_by_four() {
    let a = Matrix::from_rows(
        vec![vec![1, 0, 2, -1], vec![3, 0, 0, 5], vec![2, 1, 4, -3], vec![1, 0, 5, 0]],
        4,
    );
    assert_eq!(a.determinant(), 30);
}
