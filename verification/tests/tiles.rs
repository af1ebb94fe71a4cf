//! Seams between tiles, and the polygons carried across them.

use godot::builtin::Vector2;
use surface_landing::landing_surface::{LandingSurface, Side};
use surface_landing::tiles::{
    extend_across_seams, find_seams, flush_seams, get_collider_points,
    get_collider_points_from_tile_map_layer, merge_outcome, Cell, CollisionAlignment, EdgeAlignment,
    Seams, TileReading, TileSide,
};

type Point = (i32, i32);

const HALF: i32 = 8;

/// How the edge from `a` to `b` lies in a tile sixteen wide, in the tile's own coordinates.
fn alignment(a: Point, b: Point) -> EdgeAlignment {
    EdgeAlignment {
        vertical: a.0 == b.0,
        on_right: a.0 == HALF,
        on_left: a.0 == -HALF,
        horizontal: a.1 == b.1,
        on_bottom: a.1 == HALF,
        on_top: a.1 == -HALF,
    }
}

fn alignments(polygon: &[Point]) -> Vec<EdgeAlignment> {
    (0..polygon.len()).map(|i| alignment(polygon[i], polygon[(i + 1) % polygon.len()])).collect()
}

fn inner() -> CollisionAlignment {
    CollisionAlignment { on_left: false, on_top: false, on_right: false, on_bottom: false }
}

fn sides_of(seams: Seams) -> Vec<TileSide> {
    seams.sides()
}

/// Rectangles given by two corners; two that share a stretch of an edge merge into the
/// rectangle around both, anything else stays two.
fn merge_boxes(a: &Vec<Point>, b: &Vec<Point>) -> Vec<Vec<Point>> {
    let (a0, a1, b0, b1) = (a[0], a[1], b[0], b[1]);
    let beside = (a1.0 == b0.0 || b1.0 == a0.0) && a0.1 == b0.1 && a1.1 == b1.1;
    let stacked = (a1.1 == b0.1 || b1.1 == a0.1) && a0.0 == b0.0 && a1.0 == b1.0;
    if beside || stacked {
        let low = (a0.0.min(b0.0), a0.1.min(b0.1));
        let high = (a1.0.max(b1.0), a1.1.max(b1.1));
        vec![vec![low, high]]
    } else {
        vec![a.clone(), b.clone()]
    }
}

fn w(x: i32, y: i32) -> Vector2 {
    Vector2::new(x as f32, y as f32)
}

fn never(_: Vector2, _: Vector2) -> bool {
    false
}

fn never_inside(_: LandingSurface, _: &Vec<Vector2>, _: Side) -> bool {
    false
}

fn keep_apart(a: &Vec<Vector2>, b: &Vec<Vector2>) -> Vec<Vec<Vector2>> {
    vec![a.clone(), b.clone()]
}

#[test]
fn cell_beside_a_cell() {
    let cell = Cell { x: 3, y: -2 };
    assert_eq!(cell.neighbour(TileSide::Left), Cell { x: 2, y: -2 });
    assert_eq!(cell.neighbour(TileSide::Right), Cell { x: 4, y: -2 });
    assert_eq!(cell.neighbour(TileSide::Up), Cell { x: 3, y: -3 });
    assert_eq!(cell.neighbour(TileSide::Down), Cell { x: 3, y: -1 });
    assert_eq!(Cell { x: i32::MAX - 1, y: i32::MIN + 1 }.neighbour(TileSide::Right).x, i32::MAX);
    assert_eq!(Cell { x: i32::MAX - 1, y: i32::MIN + 1 }.neighbour(TileSide::Up).y, i32::MIN);
}

#[test]
fn full_tile_is_flush_on_all_four_sides() {
    let square = [(-8, -8), (8, -8), (8, 8), (-8, 8)];
    let seams = flush_seams(&alignments(&square));
    assert_eq!(seams, Seams { left: true, right: true, up: true, down: true });
    assert_eq!(sides_of(seams), vec![TileSide::Right, TileSide::Left, TileSide::Down, TileSide::Up]);
}

#[test]
fn slope_is_flush_where_its_edges_follow_the_boundary() {
    // A ramp that rises to the right: flush below and on the right.
    let ramp = [(-8, 8), (8, -8), (8, 8)];
    let seams = flush_seams(&alignments(&ramp));
    assert_eq!(seams, Seams { left: false, right: true, up: false, down: true });
}

#[test]
fn edge_that_only_touches_the_boundary_is_not_flush() {
    let diamond = [(0, -8), (8, 0), (0, 8), (-8, 0)];
    assert_eq!(flush_seams(&alignments(&diamond)), Seams::none());
    assert!(sides_of(Seams::none()).is_empty());
}

#[test]
fn edge_inside_the_tile_is_not_flush() {
    let slab = [(-8, 0), (8, 0), (8, 8), (-8, 8)];
    let seams = flush_seams(&alignments(&slab));
    assert_eq!(seams, Seams { left: true, right: true, up: false, down: true });
}

#[test]
fn edge_on_the_right_is_not_taken_for_one_on_the_left() {
    let both = EdgeAlignment {
        vertical: true,
        on_right: true,
        on_left: true,
        horizontal: true,
        on_bottom: true,
        on_top: true,
    };
    let mut seams = Seams::none();
    seams.note_edge(both);
    assert_eq!(seams, Seams { left: false, right: true, up: false, down: true });
}

#[test]
fn seams_keep_what_they_have() {
    let mut seams = Seams::none();
    seams.insert(TileSide::Up);
    seams.insert(TileSide::Up);
    seams.note_edge(alignment((-8, -8), (-8, 8)));
    assert!(seams.contains(TileSide::Up));
    assert!(seams.contains(TileSide::Left));
    assert!(!seams.contains(TileSide::Right));
    assert!(!seams.contains(TileSide::Down));
    assert_eq!(sides_of(seams), vec![TileSide::Left, TileSide::Up]);
}

#[test]
fn collision_on_the_boundary_names_one_side() {
    let on = |l, t, r, b| CollisionAlignment { on_left: l, on_top: t, on_right: r, on_bottom: b };
    assert_eq!(inner().boundary_side(), None);
    assert_eq!(on(true, false, false, false).boundary_side(), Some(TileSide::Left));
    assert_eq!(on(false, true, false, false).boundary_side(), Some(TileSide::Up));
    assert_eq!(on(false, false, true, false).boundary_side(), Some(TileSide::Right));
    assert_eq!(on(false, false, false, true).boundary_side(), Some(TileSide::Down));
    // In a corner of the tile: left before top before right before bottom.
    assert_eq!(on(true, true, false, false).boundary_side(), Some(TileSide::Left));
    assert_eq!(on(false, true, true, false).boundary_side(), Some(TileSide::Up));
    assert_eq!(on(false, false, true, true).boundary_side(), Some(TileSide::Right));
}

#[test]
fn empty_tile_has_only_the_seam_of_the_collision() {
    let square = [(-8, -8), (8, -8), (8, 8), (-8, 8)];
    let on_top = CollisionAlignment { on_top: true, ..inner() };
    assert_eq!(
        find_seams(false, &alignments(&square), on_top),
        Seams { up: true, ..Seams::none() }
    );
    assert_eq!(find_seams(false, &alignments(&square), inner()), Seams::none());
    let ramp = [(-8, 8), (8, -8), (8, 8)];
    assert_eq!(
        find_seams(true, &alignments(&ramp), on_top),
        Seams { left: false, right: true, up: true, down: true }
    );
}

#[test]
fn merge_that_gives_one_polygon_is_taken() {
    assert_eq!(merge_outcome(vec![1, 2], vec![vec![7, 8, 9]]), vec![7, 8, 9]);
}

#[test]
fn merge_that_gives_several_polygons_is_dropped() {
    assert_eq!(merge_outcome(vec![1, 2], vec![vec![7], vec![8]]), vec![1, 2]);
    assert_eq!(merge_outcome(vec![1, 2], Vec::new()), vec![1, 2]);
}

#[test]
fn polygon_grows_across_its_seams() {
    let own = vec![(0, 0), (16, 16)];
    let beyond = |side: TileSide| match side {
        TileSide::Right => Some(vec![(16, 0), (32, 16)]),
        TileSide::Left => Some(vec![(-16, 0), (0, 16)]),
        _ => None,
    };
    let sides = vec![TileSide::Right, TileSide::Left, TileSide::Down];
    let r = extend_across_seams(Some(own), &sides, &beyond, &merge_boxes);
    assert_eq!(r, Some(vec![(-16, 0), (32, 16)]));
}

#[test]
fn neighbour_that_lies_apart_is_left_out() {
    let own = vec![(0, 0), (16, 16)];
    let beyond = |side: TileSide| match side {
        TileSide::Right => Some(vec![(20, 0), (32, 16)]),
        TileSide::Down => Some(vec![(0, 16), (16, 32)]),
        _ => None,
    };
    let sides = vec![TileSide::Right, TileSide::Down];
    let r = extend_across_seams(Some(own), &sides, &beyond, &merge_boxes);
    assert_eq!(r, Some(vec![(0, 0), (16, 32)]));
}

#[test]
fn empty_tile_takes_the_first_neighbour_as_it_is() {
    let beyond = |side: TileSide| match side {
        TileSide::Left => Some(vec![(-16, 0), (0, 16)]),
        TileSide::Up => Some(vec![(0, -16), (16, 0)]),
        _ => None,
    };
    let never = |_: &Vec<Point>, _: &Vec<Point>| -> Vec<Vec<Point>> { panic!("nothing to merge with") };
    let sides = vec![TileSide::Right, TileSide::Up, TileSide::Left];
    assert_eq!(extend_across_seams(None, &sides, &beyond, &never), Some(vec![(0, -16), (16, 0)]));
    assert_eq!(extend_across_seams(None, &Vec::new(), &beyond, &never), None);
    assert_eq!(extend_across_seams(None, &vec![TileSide::Down], &beyond, &never), None);
}

#[test]
fn without_seams_the_polygon_stays_as_it_is() {
    let own = vec![(0, 0), (16, 16)];
    let never = |_: TileSide| -> Option<Vec<Point>> { panic!("no seam to look across") };
    assert_eq!(extend_across_seams(Some(own.clone()), &Vec::new(), &never, &merge_boxes), Some(own));
}

#[test]
fn only_the_tiles_beyond_a_seam_are_looked_at() {
    // A slab below the middle of the tile: nothing above it is asked for.
    let slab = [(-8, 0), (8, 0), (8, 8), (-8, 8)];
    let beyond = |side: TileSide| match side {
        TileSide::Up => panic!("the slab is not flush with the top"),
        TileSide::Right => Some(vec![(16, 8), (32, 16)]),
        _ => None,
    };
    let r = get_collider_points_from_tile_map_layer(
        Some(vec![(0, 8), (16, 16)]),
        &alignments(&slab),
        inner(),
        &beyond,
        &merge_boxes,
    );
    assert_eq!(r, Some(vec![(0, 8), (32, 16)]));
}

#[test]
fn collision_on_the_edge_of_an_empty_tile_finds_the_tile_beside_it() {
    let beyond = |side: TileSide| match side {
        TileSide::Left => Some(vec![(-16, 0), (0, 16)]),
        _ => panic!("only the left is asked for"),
    };
    let on_left = CollisionAlignment { on_left: true, ..inner() };
    let r = get_collider_points_from_tile_map_layer(None, &Vec::new(), on_left, &beyond, &merge_boxes);
    assert_eq!(r, Some(vec![(-16, 0), (0, 16)]));
}

#[test]
fn collider_that_is_no_tile_layer_has_no_points() {
    let nowhere = |_: TileSide| -> Option<Vec<Vector2>> { panic!("there are no tiles") };
    let r = get_collider_points(None, &nowhere, &keep_apart, &never, &never_inside, &never);
    assert_eq!(r, None);
}

#[test]
fn collider_points_come_out_smoothed() {
    let reading = TileReading {
        own: Some(vec![w(0, 0), w(16, 0), w(16, 16), w(16, 16), w(0, 16)]),
        edges: Vec::new(),
        collision: inner(),
    };
    let nothing = |_: TileSide| -> Option<Vec<Vector2>> { None };
    let equal = |a: Vector2, b: Vector2| a == b;
    let r = get_collider_points(Some(reading), &nothing, &keep_apart, &equal, &never_inside, &never);
    assert_eq!(r, Some(vec![w(0, 0), w(16, 0), w(16, 16), w(0, 16)]));
}

#[test]
fn collider_points_take_in_the_tile_beside() {
    // Two full tiles side by side: the seam on the right is crossed, and the points on the
    // seam go as the top and the bottom run straight on.
    let square = [(-8, -8), (8, -8), (8, 8), (-8, 8)];
    let reading = TileReading {
        own: Some(vec![w(0, 0), w(16, 0), w(16, 16), w(0, 16)]),
        edges: alignments(&square),
        collision: inner(),
    };
    let beyond = |side: TileSide| match side {
        TileSide::Right => Some(vec![w(16, 0), w(32, 0), w(32, 16), w(16, 16)]),
        _ => None,
    };
    let union = |next: &Vec<Vector2>, own: &Vec<Vector2>| {
        assert_eq!(next[0], w(16, 0));
        assert_eq!(own[0], w(0, 0));
        vec![vec![w(0, 0), w(16, 0), w(32, 0), w(32, 16), w(16, 16), w(0, 16)]]
    };
    let flat = |n1: Vector2, n2: Vector2| n1 == n2;
    let outward = |s: LandingSurface, _: &Vec<Vector2>, side: Side| {
        // The block lies between y = 0 and y = 16, and the probe is asked of its outline only.
        let middle = (s.a + s.b) / 2.0;
        let point = if side == Side::Front { middle + s.normal } else { middle - s.normal };
        0.0 < point.x && point.x < 32.0 && 0.0 < point.y && point.y < 16.0
    };
    let r = get_collider_points(Some(reading), &beyond, &union, &never, &outward, &flat);
    assert_eq!(r, Some(vec![w(0, 0), w(32, 0), w(32, 16), w(0, 16)]));
}

#[test]
fn tile_without_polygon_and_without_neighbour_has_no_points() {
    let reading = TileReading { own: None, edges: Vec::new(), collision: inner() };
    let nothing = |_: TileSide| -> Option<Vec<Vector2>> { None };
    let r = get_collider_points(Some(reading), &nothing, &keep_apart, &never, &never_inside, &never);
    assert_eq!(r, None);
}
