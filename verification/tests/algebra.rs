use mat::traits::Matrix;
use mat::traits::Transpose;
use mat::traits::UnsafeGet;
use mat::traits::Zero;
use mat::Product;
use mat::Sum;
use mat::{mat, Mat};

fn mat_a() -> Mat {
    // 2 by 3 matrix
    mat(vec![vec![1, 2, 3], vec![3, 4, 5]]).unwrap()
}

fn mat_b() -> Mat {
    // 3 by 2 matrix
    mat(vec![vec![1, 2], vec![3, 4], vec![5, 6]]).unwrap()
}

#[test]
fn dense_get_returns_constructed_elements() {
    let a = mat_a();
    assert_eq!(a.get(0, 0), 1);
    assert_eq!(a.get(0, 1), 2);
    assert_eq!(a.get(0, 2), 3);
    assert_eq!(a.get(1, 0), 3);
    assert_eq!(a.get(1, 1), 4);
    assert_eq!(a.get(1, 2), 5);
}

#[test]
fn dense_access_out_of_bounds_fails() {
    let a = mat_a();
    assert_eq!(a.checked_get(2, 0), None);
    assert_eq!(a.checked_get(0, 3), None);
    assert_eq!(a.checked_get(1, 2), Some(5));
}

#[test]
fn unchecked_access_matches_checked_access() {
    let a = mat_a();
    assert_eq!(a.unsafe_get(1, 1), a.get(1, 1));
}

#[test]
fn size_reports_fixed_dimensions() {
    let a = mat_a();
    assert_eq!(a.size(), (2, 3));
    assert_eq!(a.nrows(), 2);
    assert_eq!(a.ncols(), 3);
    let t = (&a).t();
    assert_eq!(t.size(), (3, 2));
}

#[test]
fn transpose_swaps_indices_not_data() {
    let a = mat_a();
    let t = (&a).t();
    for r in 0..2 {
        for c in 0..3 {
            assert_eq!(t.get(c, r), a.get(r, c));
        }
    }
}

#[test]
fn double_transpose_identity() {
    let a = mat_a();
    let tt = (&a).t().t();
    assert_eq!(tt.size(), a.size());
    for r in 0..2 {
        for c in 0..3 {
            assert_eq!(tt.get(r, c), a.get(r, c));
        }
    }
}

#[test]
fn sum_commutes() {
    let a = mat_a();
    let b = mat(vec![vec![10, 20, 30], vec![40, 50, 60]]).unwrap();
    let ab = Sum::try_new(&a, &b).unwrap();
    let ba = Sum::try_new(&b, &a).unwrap();
    for r in 0..2 {
        for c in 0..3 {
            assert_eq!(ab.get(r, c), ba.get(r, c));
            assert_eq!(ab.get(r, c), a.get(r, c) + b.get(r, c));
        }
    }
}

#[test]
fn product_matches_dot_products() {
    let a = mat_a();
    let b = mat_b();
    let p = Product::try_new(&a, &b).unwrap();
    assert_eq!(p.size(), (2, 2));
    for r in 0..2 {
        for c in 0..2 {
            let mut expected: i64 = 0;
            for i in 0..3 {
                expected += a.get(r, i) * b.get(i, c);
            }
            assert_eq!(p.get(r, c), expected);
        }
    }
    assert_eq!(p.get(0, 0), 22);
    assert_eq!(p.get(0, 1), 28);
    assert_eq!(p.get(1, 0), 40);
    assert_eq!(p.get(1, 1), 52);
}

#[test]
fn product_concrete_scenario() {
    let a = mat_a();
    let b = mat_b();
    let c = Product::try_new(&a, &b).unwrap();
    assert_eq!(c.get(0, 0), 1 * 1 + 2 * 3 + 3 * 5);
    assert_eq!(c.get(0, 0), 22);
}

#[test]
fn non_rectangular_literal_fails() {
    let e = match mat(vec![vec![1, 2], vec![3]]) {
        Ok(_) => panic!("a non-rectangular literal must be rejected"),
        Err(e) => e,
    };
    assert_eq!(e.row, 1);
    assert_eq!(e.expected, 2);
    assert_eq!(e.found, 1);
}

#[test]
fn product_shape_mismatch_fails() {
    let a = mat_a();
    let c = mat(vec![vec![1, 2], vec![3, 4]]).unwrap();
    // a has 3 columns, c has 2 rows: no product node is built
    assert!(Product::try_new(&a, &c).is_none());
}

#[test]
fn sum_shape_mismatch_fails() {
    let a = mat_a();
    let b = mat_b();
    assert!(Sum::try_new(&a, &b).is_none());
}

#[test]
fn set_updates_one_element_only() {
    let mut a = mat_a();
    a.set(1, 2, 99);
    assert_eq!(a.get(1, 2), 99);
    assert_eq!(a.get(0, 0), 1);
    assert_eq!(a.get(0, 2), 3);
    assert_eq!(a.get(1, 1), 4);
}

#[test]
fn new_takes_row_major_buffer() {
    let m = Mat::new(vec![1, 2, 3, 4, 5, 6], 2, 3);
    assert_eq!(m.get(0, 0), 1);
    assert_eq!(m.get(0, 2), 3);
    assert_eq!(m.get(1, 0), 4);
    assert_eq!(m.get(1, 2), 6);
}

#[test]
fn nested_expression_evaluates_lazily_per_element() {
    let a = mat_a();
    let b = mat_b();
    let c = mat(vec![vec![1, 1], vec![1, 1]]).unwrap();
    let p = Product::try_new(&a, &b).unwrap();
    let s = Sum::try_new(p, &c).unwrap();
    let t = s.t();
    assert_eq!(t.size(), (2, 2));
    assert_eq!(t.get(0, 0), 23);
    assert_eq!(t.get(1, 0), 29);
    assert_eq!(t.get(0, 1), 41);
    assert_eq!(t.get(1, 1), 53);
}

#[test]
fn zero_rows_of_elements() {
    let m = mat(vec![vec![], vec![]]).unwrap();
    assert_eq!(m.size(), (2, 0));
    assert_eq!(m.checked_get(0, 0), None);
}

#[test]
fn product_takes_transpose_operands() {
    let a = mat_a();
    let t = (&a).t();
    let p = Product::try_new(t, &a).unwrap();
    assert_eq!(p.size(), (3, 3));
    assert_eq!(p.get(0, 0), 1 * 1 + 3 * 3);
    assert_eq!(p.get(0, 1), 1 * 2 + 3 * 4);
    assert_eq!(p.get(2, 2), 3 * 3 + 5 * 5);
}

#[test]
fn unchecked_constructors_compose_nodes() {
    let a = mat_a();
    let b = mat(vec![vec![6, 5, 4], vec![4, 3, 2]]).unwrap();
    let s = Sum::new(&a, &b);
    for r in 0..2 {
        for c in 0..3 {
            assert_eq!(s.get(r, c), 7);
        }
    }
    let b2 = mat_b();
    let p = Product::new(&a, &b2);
    assert_eq!(p.get(1, 1), 52);
}

#[test]
fn row_view_reads_one_row() {
    let a = mat_a();
    let row = a.row(1);
    assert_eq!(row.len(), 3);
    assert_eq!(row.index(0), 3);
    assert_eq!(row.index(1), 4);
    assert_eq!(row.index(2), 5);
}

#[test]
fn zero_values() {
    assert_eq!(<i64 as Zero>::zero(), 0);
    assert_eq!(<i8 as Zero>::zero(), 0);
    assert_eq!(<u32 as Zero>::zero(), 0);
    assert_eq!(<usize as Zero>::zero(), 0);
}
