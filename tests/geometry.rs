use raytracer::{Color, Point, Vector};

#[test]
fn adding_two_vectors() {
    let a: Vector<f64> = Vector::new(3.0, 2.0, 1.0);
    let b: Vector<f64> = Vector::new(5.0, 6.0, 7.0);
    let r: Vector<f64> = Vector::new(8.0, 8.0, 8.0);

    assert_eq!(a + b, r);
    assert_eq!(b + a, r);
}

#[test]
fn adding_a_point_and_a_vector() {
    let a: Point<f64> = Point::new(3.0, 2.0, 1.0);
    let b: Vector<f64> = Vector::new(5.0, 6.0, 7.0);
    let r: Point<f64> = Point::new(8.0, 8.0, 8.0);

    assert_eq!(a + b, r);
    assert_eq!(b + a, r);
}

#[test]
fn subtracting_two_points() {
    let a: Point<f64> = Point::new(3.0, 2.0, 1.0);
    let b: Point<f64> = Point::new(5.0, 6.0, 7.0);
    let r: Vector<f64> = Vector::new(-2.0, -4.0, -6.0);

    assert_eq!(a - b, r);
}

#[test]
fn subtracting_a_vector_from_a_point() {
    let a: Point<f64> = Point::new(3.0, 2.0, 1.0);
    let b: Vector<f64> = Vector::new(5.0, 6.0, 7.0);
    let r: Point<f64> = Point::new(-2.0, -4.0, -6.0);

    assert_eq!(a - b, r);
}

#[test]
fn subtracting_two_vectors() {
    let a: Vector<f64> = Vector::new(3.0, 2.0, 1.0);
    let b: Vector<f64> = Vector::new(5.0, 6.0, 7.0);
    let r: Vector<f64> = Vector::new(-2.0, -4.0, -6.0);

    assert_eq!(a - b, r);
}

#[test]
fn inverse_of_a_vector() {
    let a: Vector<f64> = Vector::new(3.0, 2.0, 1.0);
    let r: Vector<f64> = Vector::new(-3.0, -2.0, -1.0);

    assert_eq!(-a, r);
}

#[test]
fn multiplying_a_vector_by_a_scalar() {
    let a: Vector<f64> = Vector::new(1.0, -2.0, 3.0);
    let r: Vector<f64> = Vector::new(3.5, -7.0, 10.5);

    assert_eq!(a * 3.5, r);
}

#[test]
fn dividing_a_vector_by_a_scalar() {
    let a: Vector<f64> = Vector::new(1.0, -2.0, 3.0);
    let r: Vector<f64> = Vector::new(0.5, -1.0, 1.5);

    assert_eq!(a / 2.0, r);
}

#[test]
fn dot_product_of_orthogonal_vectors_is_zero() {
    let a: Vector<f64> = Vector::new(1.0, 2.0, 0.0);
    let b: Vector<f64> = Vector::new(0.0, 0.0, 3.0);

    assert_eq!(a.dot(&b), 0.0);
}

#[test]
fn cross_product_is_orthogonal() {
    let a: Vector<f64> = Vector::new(1.0, 2.0, 3.0);
    let b: Vector<f64> = Vector::new(2.0, 3.0, 4.0);
    let r: Vector<f64> = Vector::new(-1.0, 2.0, -1.0);

    // Order matters!
    assert_eq!(a.cross(&b), r);
    assert_eq!(b.cross(&a), -r);

    assert!(a.dot(&r) - f64::EPSILON < 0.0);
    assert!(b.dot(&r) - f64::EPSILON < 0.0);
}

#[test]
fn color_operations() {
    let a: Color<f64> = Color::new(1.0, 2.0, 3.0);

    assert_eq!(a + a, Color::new(2.0, 4.0, 6.0));
    assert_eq!(a * a, Color::new(1.0, 4.0, 9.0));
    assert_eq!(a * 3.0, Color::new(3.0, 6.0, 9.0));
    assert_eq!(a - a * 0.5, Color::new(0.5, 1.0, 1.5));
}

#[test]
fn length_squared_sums_the_squares() {
    let a: Vector<f64> = Vector::new(-1.0, 2.0, -3.0);

    assert_eq!(a.length_squared(), 14.0);
}

#[test]
fn hadamard_multiplies_components() {
    let a: Vector<i64> = Vector::new(1, -2, 3);
    let b: Vector<i64> = Vector::new(4, 5, -6);

    assert_eq!(a.hadamard(&b), Vector::new(4, -10, -18));
}

#[test]
fn adding_a_scalar_to_a_vector() {
    let a: Vector<i64> = Vector::new(1, -2, 3);

    assert_eq!(a + 10, Vector::new(11, 8, 13));
}

#[test]
fn point_to_is_the_difference() {
    let a: Point<i64> = Point::new(1, 2, 3);
    let b: Point<i64> = Point::new(4, 0, 9);

    assert_eq!(a.to(&b), Vector::new(3, -2, 6));
    assert_eq!(b.to(&a), Vector::new(-3, 2, -6));
}

#[test]
fn conversions_keep_the_coordinates() {
    let p: Point<i64> = Point::new(1, 2, 3);
    let v: Vector<i64> = Vector::from(p);
    assert_eq!(v, Vector::new(1, 2, 3));
    assert_eq!(Point::from(v), p);
    assert_eq!(Color::from(p), Color::new(1, 2, 3));
    assert_eq!(Color::from(Vector::new(4, 5, 6)), Color::new(4, 5, 6));
}

#[test]
fn constant_constructors() {
    assert_eq!(Vector::<i64>::zero(), Vector::new(0, 0, 0));
    assert_eq!(Vector::<i64>::one(), Vector::new(1, 1, 1));
    assert_eq!(Point::<i64>::zero(), Point::new(0, 0, 0));
    assert_eq!(Point::<i64>::one(), Point::new(1, 1, 1));
    assert_eq!(Color::<f64>::gray(0.5), Color::new(0.5, 0.5, 0.5));
    assert_eq!(Color::<f64>::black(), Color::new(0.0, 0.0, 0.0));
    assert_eq!(Color::<f64>::white(), Color::new(1.0, 1.0, 1.0));
    assert_eq!(Color::<i64>::new(5, 7, 9) - Color::new(1, 2, 3), Color::new(4, 5, 6));
}
