use bubble_level::point::Point;

#[test]
fn new_inverted_negates_each_axis() {
    assert_eq!(Point::new_inverted((1, -2, 3)), Point(-1, 2, -3));
    assert_eq!(Point::new_inverted((0, 0, 0)), Point(0, 0, 0));
}

#[test]
fn new_inverted_at_the_ends_of_the_type() {
    assert_eq!(
        Point::new_inverted((i32::MAX, i32::MIN + 1, -1)),
        Point(i32::MIN + 1, i32::MAX, 1)
    );
}

#[test]
fn new_inverted_twice_gives_the_sample_back() {
    let Point(x, y, z) = Point::new_inverted((12, -345, 6789));
    assert_eq!(Point::new_inverted((x, y, z)), Point(12, -345, 6789));
}

#[test]
fn default_point_is_the_origin() {
    assert_eq!(Point::default(), Point(0, 0, 0));
}

#[test]
fn z_up_needs_a_strictly_positive_z() {
    assert!(Point(0, 0, 1).z_up());
    assert!(Point(-7, 9, i32::MAX).z_up());
    assert!(!Point(0, 0, 0).z_up());
    assert!(!Point(100, 100, -1).z_up());
    assert!(!Point(0, 0, i32::MIN).z_up());
}

#[test]
fn clamp_limits_each_axis_on_its_own() {
    assert_eq!(Point(-900, 30, 900).clamp(-500, 500), Point(-500, 30, 500));
    assert_eq!(Point(-500, 500, 0).clamp(-500, 500), Point(-500, 500, 0));
    assert_eq!(Point(-501, 501, 499).clamp(-500, 500), Point(-500, 500, 499));
}

#[test]
fn clamp_to_a_single_value() {
    assert_eq!(Point(-3, 0, 8).clamp(5, 5), Point(5, 5, 5));
}

#[test]
fn clamp_at_the_ends_of_the_type() {
    assert_eq!(Point(i32::MIN, i32::MAX, 0).clamp(-50, 49), Point(-50, 49, 0));
    assert_eq!(
        Point(i32::MIN, i32::MAX, 0).clamp(i32::MIN, i32::MAX),
        Point(i32::MIN, i32::MAX, 0)
    );
}

#[test]
fn translate_moves_each_axis() {
    assert_eq!(Point(1, 2, 3).translate(10, -20, 0), Point(11, -18, 3));
    assert_eq!(Point(-500, 499, 0).translate(500, 500, 500), Point(0, 999, 500));
    assert_eq!(Point(i32::MAX - 1, i32::MIN + 1, 0).translate(1, -1, 0), Point(i32::MAX, i32::MIN, 0));
}

#[test]
fn clamp_then_translate_gives_the_shifted_range() {
    let p = Point(25, 25, 1).clamp(-50, 49).translate(50, 50, 50);
    assert_eq!(p, Point(75, 75, 51));
}
