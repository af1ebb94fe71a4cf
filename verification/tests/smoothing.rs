//! Thinning polygons out, with the measurements taken in single-precision vector math.

use godot::builtin::Vector2;
use surface_landing::landing_surface::{LandingSurface, Side};
use surface_landing::polygon::{next_point, prior_point, remove_points};
use surface_landing::smoothing::{merge_straight_edges, remove_near_duplicates, smooth_polygon};

fn p(x: f32, y: f32) -> Vector2 {
    Vector2::new(x, y)
}

fn near(a: Vector2, b: Vector2) -> bool {
    a.distance_squared_to(b) < 1.0
}

fn same_normals_approx(n1: Vector2, n2: Vector2) -> bool {
    (n1.angle_to(n2) as f64).abs() < 0.05
}

/// Even-odd rule, with a ray to the right of the point.
fn contains(polygon: &Vec<Vector2>, point: Vector2) -> bool {
    let mut inside = false;
    let mut j = polygon.len() - 1;
    for i in 0..polygon.len() {
        let (pi, pj) = (polygon[i], polygon[j]);
        if (pi.y > point.y) != (pj.y > point.y)
            && point.x < (pj.x - pi.x) * (point.y - pi.y) / (pj.y - pi.y) + pi.x
        {
            inside = !inside;
        }
        j = i;
    }
    inside
}

fn probed_inside(surface: LandingSurface, polygon: &Vec<Vector2>, side: Side) -> bool {
    let front = (surface.a + surface.b) / 2.0 + surface.normal;
    match side {
        Side::Front => contains(polygon, front),
        Side::Back => contains(polygon, front + -2.0 * surface.normal),
    }
}

fn smooth(polygon: &mut Vec<Vector2>) {
    smooth_polygon(polygon, &near, &probed_inside, &same_normals_approx);
}

#[test]
fn same_normals_holds_of_a_normal_and_not_of_its_opposite() {
    for n in [p(0.0, -1.0), p(1.0, 0.0), p(0.6, 0.8), p(-0.28, 0.96)] {
        assert!(same_normals_approx(n, n));
        assert!(!same_normals_approx(n, -n));
    }
    // Three hundredths of a radian apart, and seven.
    assert!(same_normals_approx(p(1.0, 0.0), Vector2::from_angle(0.03)));
    assert!(!same_normals_approx(p(1.0, 0.0), Vector2::from_angle(0.07)));
}

#[test]
fn next_and_prior_wrap_around() {
    let square = vec![p(0.0, 0.0), p(1.0, 0.0), p(1.0, 1.0), p(0.0, 1.0)];
    assert_eq!(next_point(&square, 0), 1);
    assert_eq!(next_point(&square, 3), 0);
    assert_eq!(prior_point(&square, 0), 3);
    assert_eq!(prior_point(&square, 3), 2);
    for i in 0..square.len() {
        assert_eq!(prior_point(&square, next_point(&square, i)), i);
        assert_eq!(next_point(&square, prior_point(&square, i)), i);
    }
    let single = vec![p(0.0, 0.0)];
    assert_eq!(next_point(&single, 0), 0);
    assert_eq!(prior_point(&single, 0), 0);
}

#[test]
fn remove_points_takes_indices_in_any_order() {
    let mut letters = vec!['a', 'b', 'c', 'd', 'e', 'f'];
    let mut stack = vec![1, 4, 0];
    remove_points(&mut letters, &mut stack);
    assert_eq!(letters, vec!['c', 'd', 'f']);
    assert!(stack.is_empty());

    let mut letters = vec!['a', 'b', 'c', 'd', 'e', 'f'];
    let mut stack = vec![5, 2, 3];
    remove_points(&mut letters, &mut stack);
    assert_eq!(letters, vec!['a', 'b', 'e']);
}

#[test]
fn remove_points_with_an_empty_stack_removes_nothing() {
    let mut letters = vec!['a', 'b'];
    let mut stack = Vec::new();
    remove_points(&mut letters, &mut stack);
    assert_eq!(letters, vec!['a', 'b']);
}

#[test]
fn remove_points_can_remove_every_point() {
    let mut letters = vec!['a', 'b', 'c'];
    let mut stack = vec![2, 0, 1];
    remove_points(&mut letters, &mut stack);
    assert!(letters.is_empty());
}

#[test]
fn doubled_points_are_removed() {
    let mut polygon = vec![p(0.0, 0.0), p(10.0, 0.0), p(10.5, 0.2), p(10.0, 10.0), p(0.0, 10.0), p(0.1, 9.9)];
    remove_near_duplicates(&mut polygon, &near);
    assert_eq!(polygon, vec![p(0.0, 0.0), p(10.0, 0.0), p(10.0, 10.0), p(0.0, 10.0)]);
}

#[test]
fn first_point_goes_where_it_doubles_the_last() {
    let mut polygon = vec![p(0.0, 0.0), p(10.0, 0.0), p(10.0, 10.0), p(0.0, 0.5)];
    remove_near_duplicates(&mut polygon, &near);
    assert_eq!(polygon, vec![p(10.0, 0.0), p(10.0, 10.0), p(0.0, 0.5)]);
}

#[test]
fn points_a_unit_apart_are_kept() {
    let mut polygon = vec![p(0.0, 0.0), p(1.0, 0.0), p(1.0, 1.0)];
    remove_near_duplicates(&mut polygon, &near);
    assert_eq!(polygon.len(), 3);
}

#[test]
fn a_single_point_doubles_itself() {
    let mut polygon = vec![p(3.0, 4.0)];
    remove_near_duplicates(&mut polygon, &near);
    assert!(polygon.is_empty());
}

#[test]
fn nearly_straight_edges_are_merged() {
    // The top runs from (0, 0) over (10, 0) to (20, 0.2): two hundredths of a radian apart.
    let mut polygon = vec![p(0.0, 0.0), p(10.0, 0.0), p(20.0, 0.2), p(20.0, 10.0), p(0.0, 10.0)];
    let top_left = LandingSurface::find_surface(&polygon, 0, 1, &probed_inside).unwrap();
    let top_right = LandingSurface::find_surface(&polygon, 1, 2, &probed_inside).unwrap();
    let apart = (top_left.normal.angle_to(top_right.normal) as f64).abs();
    assert!(0.015 < apart && apart < 0.03);

    smooth(&mut polygon);
    assert_eq!(polygon, vec![p(0.0, 0.0), p(20.0, 0.2), p(20.0, 10.0), p(0.0, 10.0)]);
}

#[test]
fn tiles_in_a_row_become_one_edge() {
    // Three tiles side by side leave points along the top and the bottom.
    let mut polygon = vec![
        p(0.0, 0.0),
        p(16.0, 0.0),
        p(32.0, 0.0),
        p(48.0, 0.0),
        p(48.0, 16.0),
        p(32.0, 16.0),
        p(16.0, 16.0),
        p(0.0, 16.0),
    ];
    merge_straight_edges(&mut polygon, &probed_inside, &same_normals_approx);
    assert_eq!(polygon, vec![p(0.0, 0.0), p(48.0, 0.0), p(48.0, 16.0), p(0.0, 16.0)]);
}

#[test]
fn edges_further_apart_are_kept() {
    // The top bends by a tenth of a radian.
    let mut polygon = vec![p(0.0, 0.0), p(10.0, 0.0), p(20.0, 1.0), p(20.0, 10.0), p(0.0, 10.0)];
    let before = polygon.clone();
    smooth(&mut polygon);
    assert_eq!(polygon, before);
}

#[test]
fn smoothing_removes_doubles_before_it_looks_at_normals() {
    // Without the doubled point at (10.2, 0.3) the top is straight.
    let mut polygon = vec![
        p(0.0, 0.0),
        p(10.0, 0.0),
        p(10.2, 0.3),
        p(20.0, 0.0),
        p(20.0, 10.0),
        p(0.0, 10.0),
    ];
    smooth(&mut polygon);
    assert_eq!(polygon, vec![p(0.0, 0.0), p(20.0, 0.0), p(20.0, 10.0), p(0.0, 10.0)]);
}

#[test]
fn smoothing_twice_is_smoothing_once() {
    let mut polygon = vec![
        p(0.0, 0.0),
        p(10.0, 0.0),
        p(10.2, 0.3),
        p(20.0, 0.2),
        p(20.0, 10.0),
        p(10.0, 10.0),
        p(0.0, 10.0),
    ];
    smooth(&mut polygon);
    let once = polygon.clone();
    assert_eq!(once, vec![p(0.0, 0.0), p(20.0, 0.2), p(20.0, 10.0), p(0.0, 10.0)]);
    smooth(&mut polygon);
    assert_eq!(polygon, once);
}

#[test]
fn smoothing_a_smooth_polygon_changes_nothing() {
    let mut polygon = vec![p(0.0, 0.0), p(20.0, 0.0), p(20.0, 10.0), p(0.0, 10.0)];
    let before = polygon.clone();
    smooth(&mut polygon);
    assert_eq!(polygon, before);
}

#[test]
fn removing_a_double_can_leave_a_new_double() {
    // (0.9, 0) doubles (0, 0), and (0, 0.5) does not double (0.9, 0). Once (0.9, 0) is gone,
    // (0, 0.5) follows (0, 0) and doubles it: a second run removes it.
    let mut polygon = vec![p(0.0, 0.0), p(0.9, 0.0), p(0.0, 0.5), p(10.0, 10.0), p(-10.0, 10.0)];
    smooth(&mut polygon);
    assert_eq!(polygon, vec![p(0.0, 0.0), p(0.0, 0.5), p(10.0, 10.0), p(-10.0, 10.0)]);
    smooth(&mut polygon);
    assert_eq!(polygon, vec![p(0.0, 0.0), p(10.0, 10.0), p(-10.0, 10.0)]);
}

#[test]
fn smoothing_an_empty_polygon_leaves_it_empty() {
    let mut polygon: Vec<Vector2> = Vec::new();
    smooth(&mut polygon);
    assert!(polygon.is_empty());
}
