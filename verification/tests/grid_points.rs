use std::cmp::Ordering;

use planetkit::cell_pos::{self, CellPos};
use planetkit::dir::Dir;
use planetkit::grid_point2::GridPoint2;
use planetkit::grid_point3::{semi_arbitrary_compare, GridPoint3, PosInOwningRoot};
use planetkit::movement::triangles::{closest_triangle_to_point, triangle_on_pos_with_closest_mid_axis, Exit, Triangle};
use planetkit::movement::{adjacent_pos_in_dir, debug_assert_pos_within_root, is_on_root_edge, is_pentagon};
use planetkit::point2::{Point2, Point3};
use planetkit::root::Root;
use planetkit::GridCoord;

const RES: [GridCoord; 2] = [4, 8];

fn p(root: u8, x: GridCoord, y: GridCoord, z: GridCoord) -> GridPoint3 {
    GridPoint3::new(root.into(), x, y, z)
}

#[test]
fn grid_point2_builders() {
    let a = GridPoint2::new(Root::new(2), 3, 4);
    assert_eq!(a.with_root(4), GridPoint2::new(Root::new(4), 3, 4));
    assert_eq!(a.with_x(7), GridPoint2::new(Root::new(2), 7, 4));
    assert_eq!(a.with_y(-1), GridPoint2::new(Root::new(2), 3, -1));
    assert_eq!(a.with_z(9), p(2, 3, 4, 9));
    assert_eq!(a.with_x(a.x), a);
}

#[test]
fn grid_point3_builders() {
    let a = p(1, 2, 3, 4);
    assert_eq!(a.root, Root::new(1));
    assert_eq!((a.x, a.y, a.z), (2, 3, 4));
    assert_eq!(a.with_root(3), p(3, 2, 3, 4));
    assert_eq!(a.with_x(0), p(1, 0, 3, 4));
    assert_eq!(a.with_y(8), p(1, 2, 8, 4));
    assert_eq!(a.with_z(-2), p(1, 2, 3, -2));
}

#[test]
fn point2_builders() {
    let a = Point2::new(Root::new(0), 5, 6);
    assert_eq!(a.with_root(3), Point2::new(Root::new(3), 5, 6));
    assert_eq!(a.with_x(1), Point2::new(Root::new(0), 1, 6));
    assert_eq!(a.with_y(2), Point2::new(Root::new(0), 5, 2));
    let c: Point3 = a.with_z(7);
    assert_eq!(c, p(0, 5, 6, 7));
}

#[test]
fn cell_pos_builders() {
    let a = CellPos::new(Root::new(4), 1, 2, 3);
    assert_eq!((a.root.index, a.x, a.y, a.z), (4, 1, 2, 3));
    assert_eq!(a.with_root(0), CellPos::new(Root::new(0), 1, 2, 3));
    assert_eq!(a.with_x(9), CellPos::new(Root::new(4), 9, 2, 3));
    assert_eq!(a.with_y(9), CellPos::new(Root::new(4), 1, 9, 3));
    assert_eq!(a.with_z(9), CellPos::new(Root::new(4), 1, 2, 9));
}

#[test]
fn root_next_west_wraps_around() {
    assert_eq!(Root::new(3).next_west(), Root::new(2));
    assert_eq!(Root::new(0).next_west(), Root::new(4));
    let mut r = Root::new(1);
    for _ in 0..5 {
        r = r.next_west();
    }
    assert_eq!(r, Root::new(1));
}

#[test]
fn owning_root_of_poles() {
    assert_eq!(*PosInOwningRoot::new(p(3, 0, 0, 5), RES).pos(), p(0, 0, 0, 5));
    assert_eq!(*PosInOwningRoot::new(p(1, 4, 8, 2), RES).pos(), p(4, 4, 8, 2));
}

#[test]
fn owning_root_of_edges() {
    // North-west edge belongs to the next root west's north-east edge.
    assert_eq!(*PosInOwningRoot::new(p(2, 3, 0, 1), RES).pos(), p(1, 0, 3, 1));
    assert_eq!(*PosInOwningRoot::new(p(0, 2, 0, 0), RES).pos(), p(4, 0, 2, 0));
    // The west pentagon is on the north-west edge too.
    assert_eq!(*PosInOwningRoot::new(p(2, 4, 0, 0), RES).pos(), p(1, 0, 4, 0));
    // Upper half of the west edge.
    assert_eq!(*PosInOwningRoot::new(p(2, 4, 2, 0), RES).pos(), p(1, 0, 6, 0));
    // Lower half of the west edge, including its middle.
    assert_eq!(*PosInOwningRoot::new(p(2, 4, 4, 0), RES).pos(), p(1, 0, 8, 0));
    assert_eq!(*PosInOwningRoot::new(p(2, 4, 5, 0), RES).pos(), p(1, 1, 8, 0));
}

#[test]
fn owned_cells_stay_put() {
    for &pos in &[p(2, 3, 3, 7), p(2, 0, 3, 0), p(2, 2, 8, 1), p(0, 0, 0, 0), p(4, 4, 8, 3)] {
        assert_eq!(*PosInOwningRoot::new(pos, RES).pos(), pos);
    }
}

#[test]
fn owning_root_is_idempotent() {
    for root in 0..5u8 {
        for x in 0..=4 {
            for y in 0..=8 {
                let once = *PosInOwningRoot::new(p(root, x, y, 3), RES).pos();
                let twice = *PosInOwningRoot::new(once, RES).pos();
                assert_eq!(once, twice);
                assert!(once.root.index < 5);
                assert!(once.x >= 0 && once.x <= 4 && once.y >= 0 && once.y <= 8);
            }
        }
    }
}

#[test]
fn pos_in_owning_root_set_z_and_into() {
    let mut owned = PosInOwningRoot::new(p(2, 3, 0, 1), RES);
    owned.set_z(6);
    assert_eq!(*owned.pos(), p(1, 0, 3, 6));
    let back: GridPoint3 = owned.into();
    assert_eq!(back, p(1, 0, 3, 6));
}

#[test]
fn cell_pos_owning_root() {
    let owned = cell_pos::PosInOwningRoot::new(CellPos::new(Root::new(2), 4, 5, 0), RES);
    assert_eq!(*owned.pos(), CellPos::new(Root::new(1), 1, 8, 0));
    let mut north = cell_pos::PosInOwningRoot::new(CellPos::new(Root::new(3), 0, 0, 2), RES);
    assert_eq!(*north.pos(), CellPos::new(Root::new(0), 0, 0, 2));
    north.set_z(0);
    let back: CellPos = north.into();
    assert_eq!(back, CellPos::new(Root::new(0), 0, 0, 0));
    let interior = CellPos::new(Root::new(3), 1, 1, 1);
    assert_eq!(*cell_pos::PosInOwningRoot::new(interior, RES).pos(), interior);
}

#[test]
fn compare_by_root_then_z_then_y_then_x() {
    assert_eq!(semi_arbitrary_compare(&p(1, 9, 9, 9), &p(2, 0, 0, 0)), Ordering::Less);
    assert_eq!(semi_arbitrary_compare(&p(2, 0, 0, 1), &p(2, 9, 9, 0)), Ordering::Greater);
    assert_eq!(semi_arbitrary_compare(&p(2, 9, 1, 1), &p(2, 0, 2, 1)), Ordering::Less);
    assert_eq!(semi_arbitrary_compare(&p(2, 3, 2, 1), &p(2, 2, 2, 1)), Ordering::Greater);
    assert_eq!(semi_arbitrary_compare(&p(2, 3, 2, 1), &p(2, 3, 2, 1)), Ordering::Equal);
    let mut points = vec![p(1, 0, 0, 1), p(0, 5, 5, 5), p(1, 1, 0, 0), p(1, 0, 1, 0)];
    points.sort_by(semi_arbitrary_compare);
    assert_eq!(points, vec![p(0, 5, 5, 5), p(1, 1, 0, 0), p(1, 0, 1, 0), p(1, 0, 0, 1)]);
}

#[test]
fn dir_turns() {
    assert_eq!(Dir::new(2).opposite(), Dir::new(8));
    assert_eq!(Dir::new(8).opposite(), Dir::new(2));
    assert_eq!(Dir::new(10).next_hex_edge_left(), Dir::new(0));
    assert_eq!(Dir::new(0).next_hex_edge_right(), Dir::new(10));
    assert_eq!(Dir::new(5).next_hex_edge_left(), Dir::new(7));
    assert!(Dir::new(4).points_at_hex_edge());
    assert!(!Dir::new(7).points_at_hex_edge());
    let d: Dir = 6.into();
    assert_eq!(d, Dir::new(6));
    for i in 0..12u8 {
        let d = Dir::new(i);
        assert_eq!(d.opposite().opposite(), d);
        assert_eq!(d.next_hex_edge_left().next_hex_edge_right(), d);
        assert_eq!(d.opposite().points_at_hex_edge(), d.points_at_hex_edge());
    }
}

#[test]
fn adjacent_positions() {
    let pos = p(0, 2, 3, 1);
    assert_eq!(adjacent_pos_in_dir(pos, Dir::new(0)), Ok(p(0, 3, 3, 1)));
    assert_eq!(adjacent_pos_in_dir(pos, Dir::new(2)), Ok(p(0, 2, 4, 1)));
    assert_eq!(adjacent_pos_in_dir(pos, Dir::new(4)), Ok(p(0, 1, 4, 1)));
    assert_eq!(adjacent_pos_in_dir(pos, Dir::new(6)), Ok(p(0, 1, 3, 1)));
    assert_eq!(adjacent_pos_in_dir(pos, Dir::new(8)), Ok(p(0, 2, 2, 1)));
    assert_eq!(adjacent_pos_in_dir(pos, Dir::new(10)), Ok(p(0, 3, 2, 1)));
    assert_eq!(adjacent_pos_in_dir(pos, Dir::new(1)), Err(()));
    assert_eq!(adjacent_pos_in_dir(pos, Dir::new(13)), Err(()));
    // Stepping out and back again returns to the start.
    for i in (0..12u8).step_by(2) {
        let d = Dir::new(i);
        let there = adjacent_pos_in_dir(pos, d).unwrap();
        assert_eq!(adjacent_pos_in_dir(there, d.opposite()), Ok(pos));
    }
}

#[test]
fn pentagons_and_root_edges() {
    let pentagons = [(0, 0), (0, 4), (0, 8), (4, 0), (4, 4), (4, 8)];
    for x in 0..=4 {
        for y in 0..=8 {
            let pos = p(1, x, y, 0);
            assert_eq!(is_pentagon(&pos, RES), pentagons.contains(&(x, y)));
            assert_eq!(is_on_root_edge(&pos, RES), x == 0 || y == 0 || x == 4 || y == 8);
            if is_pentagon(&pos, RES) {
                assert!(is_on_root_edge(&pos, RES));
            }
        }
    }
    let mut pos = p(1, 2, 3, 0);
    debug_assert_pos_within_root(&mut pos, RES);
    assert_eq!(pos, p(1, 2, 3, 0));
}

fn triangle(apex: [i64; 2], x_dir: u8) -> Triangle {
    Triangle { apex, x_dir, exits: [Exit { triangle_index: 0, root_offset: 0 }; 5] }
}

fn triangle_table() -> [Triangle; 12] {
    let mut table = [triangle([1, 1], 0); 12];
    table[0] = triangle([0, 0], 0);
    table[1] = triangle([0, 0], 4);
    table[2] = triangle([0, 0], 8);
    table[9] = triangle([1, 2], 0);
    table[10] = triangle([0, 2], 0);
    table[11] = triangle([1, 1], 0);
    table
}

#[test]
fn closest_triangle_is_among_those_facing_the_point() {
    let mut table = triangle_table();
    table[0] = triangle([1, 0], 0);
    table[2] = triangle([0, 1], 0);
    let resolution = [4, 8];
    let near_north = GridPoint3::new(0.into(), 1, 1, 0);
    assert_eq!(closest_triangle_to_point(&near_north, resolution, &table), 1);
    // Equally close apexes: the first triangle wins.
    let near_south = GridPoint3::new(0.into(), 4, 6, 0);
    assert_eq!(closest_triangle_to_point(&near_south, resolution, &triangle_table()), 9);
}

#[test]
fn triangle_on_pentagon_is_chosen_by_mid_axis() {
    let table = triangle_table();
    let pole = GridPoint3::new(0.into(), 0, 0, 0);
    assert_eq!(triangle_on_pos_with_closest_mid_axis(&pole, &Dir::new(5), [4, 8], &table), 1);
    // Mid axes 1 and 9 are equally close to 11: the first triangle wins.
    assert_eq!(triangle_on_pos_with_closest_mid_axis(&pole, &Dir::new(11), [4, 8], &table), 0);
    assert_eq!(triangle_on_pos_with_closest_mid_axis(&pole, &Dir::new(9), [4, 8], &table), 2);
}
