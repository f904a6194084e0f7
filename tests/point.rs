use grid_matrix::Point;

#[test]
fn point_from_index_five_in_three_columns() {
    let p = Point::new(5, 3);
    assert_eq!(p.x, 2);
    assert_eq!(p.y, 1);
}

#[test]
fn point_from_index_zero() {
    let p = Point::new(0, 3);
    assert_eq!(p.x, 0);
    assert_eq!(p.y, 0);
}

#[test]
fn point_from_index_row_start() {
    let p = Point::new(3, 3);
    assert_eq!((p.x, p.y), (0, 1));
    let q = Point::new(1, 3);
    assert_eq!((q.x, q.y), (1, 0));
}

#[test]
fn point_index_round_trip_on_every_cell() {
    let n_rows: usize = 7;
    for i in 0..n_rows * n_rows {
        let p = Point::new(i, n_rows);
        assert_eq!(p.x, i % n_rows);
        assert_eq!(p.y, i / n_rows);
        assert!(p.x < n_rows && p.y < n_rows);
        assert_eq!(p.y * n_rows + p.x, i);
    }
}

#[test]
fn point_single_column_grid() {
    let p = Point::new(9, 1);
    assert_eq!((p.x, p.y), (0, 9));
}

#[test]
fn distance_is_squared() {
    let a = Point { x: 0, y: 0 };
    let b = Point { x: 3, y: 4 };
    assert_eq!(a.euclidean_distance(&b), 25);
}

#[test]
fn distance_is_symmetric() {
    let a = Point { x: 0, y: 0 };
    let b = Point { x: 3, y: 4 };
    assert_eq!(b.euclidean_distance(&a), 25);
    let c = Point { x: 10, y: 2 };
    let d = Point { x: 4, y: 9 };
    assert_eq!(c.euclidean_distance(&d), 36 + 49);
    assert_eq!(d.euclidean_distance(&c), c.euclidean_distance(&d));
}

#[test]
fn distance_to_self_is_zero() {
    let p = Point { x: 12, y: 5 };
    assert_eq!(p.euclidean_distance(&p), 0);
    let q = Point::new(17, 4);
    assert_eq!(q.euclidean_distance(&q), 0);
}

#[test]
fn distance_between_indexed_points() {
    let a = Point::new(0, 4);
    let b = Point::new(15, 4);
    assert_eq!(a.euclidean_distance(&b), 18);
}
