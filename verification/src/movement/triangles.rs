//! Choosing which of the triangles that tile the root quads to work in
//! when moving near the edge of a root quad.
//!
//! Each root quad is covered by twelve triangles, listed in a table that
//! callers supply: three around the north pole of the quad, three at its
//! western and three at its eastern middle corner, and three around its
//! south pole.
use vstd::prelude::*;

use crate::dir::{Dir, DirIndex};
use crate::grid_point3::GridPoint3;
use crate::root::RootIndex;
use crate::GridCoord;

verus! {

/// How to leave a triangle for a neighboring one: the neighbor's index in
/// the triangle table, and how many roots further east its root quad is.
#[derive(Clone, Copy, PartialEq, Eq, Debug, Structural)]
pub struct Exit {
    pub triangle_index: usize,
    pub root_offset: RootIndex,
}

/// One of the triangles covering a root quad.
#[derive(Clone, Copy, PartialEq, Eq, Debug)]
pub struct Triangle {
    /// The apex, in multiples of the root quad's x-resolution.
    pub apex: [GridCoord; 2],
    /// The direction of the triangle's x-axis.
    pub x_dir: DirIndex,
    pub exits: [Exit; 5],
}

/// Where `pos` lies relative to the apex of `t`, as a hex distance.
pub open spec fn apex_distance(pos: GridPoint3, resolution: [GridCoord; 2], t: Triangle) -> int {
    let dx = pos.rxy.x - t.apex[0] * resolution[0];
    let dy = pos.rxy.y - t.apex[1] * resolution[0];
    (if dx < 0 { -dx } else { dx }) + (if dy < 0 { -dy } else { dy })
}

/// Whether the hex distance from `pos` to the apex of `t` can be computed
/// in a `GridCoord`: the apex, the offsets from it along each axis, their
/// magnitudes and their sum all fit.
pub open spec fn apex_distance_fits(pos: GridPoint3, resolution: [GridCoord; 2], t: Triangle) -> bool {
    let ax = t.apex[0] * resolution[0];
    let ay = t.apex[1] * resolution[0];
    &&& i64::MIN <= ax <= i64::MAX
    &&& i64::MIN <= ay <= i64::MAX
    &&& i64::MIN < pos.rxy.x - ax <= i64::MAX
    &&& i64::MIN < pos.rxy.y - ay <= i64::MAX
    &&& apex_distance(pos, resolution, t) <= i64::MAX
}

/// Whether the hex distance from `pos` to every triangle's apex can be
/// computed in a `GridCoord`.
pub open spec fn apexes_in_range(pos: GridPoint3, resolution: [GridCoord; 2], triangles: [Triangle; 12]) -> bool {
    forall|k: int| 0 <= k < 12 ==> apex_distance_fits(pos, resolution, #[trigger] triangles[k])
}

/// The first of the three triangles that `closest_triangle_to_point`
/// chooses among: those oriented so that `pos` lies between their x-axis
/// and y-axis.
pub open spec fn candidate_start(pos: GridPoint3, resolution: [GridCoord; 2]) -> int {
    if pos.rxy.x + pos.rxy.y < resolution[0] {
        0
    } else if pos.rxy.y < resolution[0] {
        3
    } else if pos.rxy.x + pos.rxy.y < resolution[1] {
        6
    } else {
        9
    }
}

/// The triangles chosen among for `pos` are those oriented so that it
/// lies between their axes, one group of three for each part of the root
/// quad: around the north pole while `x + y < end_x`; then, while the
/// point is in the northern half (`y < end_x`), around the western
/// middle corner; in the southern half, around the eastern middle corner
/// while `x + y < end_y`, and around the south pole beyond.
pub proof fn lemma_candidates_follow_quad_parts(pos: GridPoint3, resolution: [GridCoord; 2])
    requires
        0 <= pos.rxy.x,
    ensures
        (candidate_start(pos, resolution) == 0) == (pos.rxy.x + pos.rxy.y < resolution[0]),
        (candidate_start(pos, resolution) == 3) == (resolution[0] <= pos.rxy.x + pos.rxy.y && pos.rxy.y
            < resolution[0]),
        (candidate_start(pos, resolution) == 6) == (resolution[0] <= pos.rxy.y && pos.rxy.x + pos.rxy.y
            < resolution[1]),
        (candidate_start(pos, resolution) == 9) == (resolution[0] <= pos.rxy.y && resolution[1] <= pos.rxy.x
            + pos.rxy.y),
        resolution[0] <= pos.rxy.y ==> candidate_start(pos, resolution) >= 6,
{
}

fn apex_distance_exec(pos: &GridPoint3, resolution: [GridCoord; 2], t: &Triangle) -> (d: GridCoord)
    requires
        apex_distance_fits(*pos, resolution, *t),
    ensures
        d == apex_distance(*pos, resolution, *t),
{
    // Both parts of the apex are expressed in terms of x-dimension.
    let dx = pos.rxy.x - t.apex[0] * resolution[0];
    let dy = pos.rxy.y - t.apex[1] * resolution[0];
    let adx = if dx < 0 { -dx } else { dx };
    let ady = if dy < 0 { -dy } else { dy };
    adx + ady
}

/// Picks the triangle with the closest apex that is oriented such that
/// `pos` lies between its x-axis and y-axis, returning its index in
/// `triangles`; the first such one when several are equally close.
///
/// If `pos` is on a pentagon, `triangle_on_pos_with_closest_mid_axis` is
/// probably the one wanted.
pub fn closest_triangle_to_point(pos: &GridPoint3, resolution: [GridCoord; 2], triangles: &[Triangle; 12]) -> (i: usize)
    requires
        i64::MIN <= pos.rxy.x + pos.rxy.y <= i64::MAX,
        apexes_in_range(*pos, resolution, *triangles),
    ensures
        candidate_start(*pos, resolution) <= i < candidate_start(*pos, resolution) + 3,
        pos.rxy.x + pos.rxy.y < resolution[0] ==> i < 3,
        resolution[0] <= pos.rxy.x + pos.rxy.y && pos.rxy.y < resolution[0] ==> 3 <= i < 6,
        0 <= pos.rxy.x && resolution[0] <= pos.rxy.y && pos.rxy.x + pos.rxy.y < resolution[1] ==> 6 <= i < 9,
        0 <= pos.rxy.x && resolution[0] <= pos.rxy.y && resolution[1] <= pos.rxy.x + pos.rxy.y ==> 9 <= i < 12,
        forall|j: int|
            candidate_start(*pos, resolution) <= j < candidate_start(*pos, resolution) + 3 ==> apex_distance(
                *pos,
                resolution,
                triangles[i as int],
            ) <= apex_distance(*pos, resolution, #[trigger] triangles[j]),
        forall|j: int|
            candidate_start(*pos, resolution) <= j < i ==> apex_distance(*pos, resolution, triangles[i as int])
                < apex_distance(*pos, resolution, #[trigger] triangles[j]),
{
    // First we filter down to those where
    // pos lies between the triangle's x-axis and y-axis.
    let start: usize = if pos.rxy.x + pos.rxy.y < resolution[0] {
        0
    } else if pos.rxy.y < resolution[0] {
        3
    } else if pos.rxy.x + pos.rxy.y < resolution[1] {
        6
    } else {
        9
    };

    // Pick the closest triangle.
    let mut best: usize = start;
    let mut best_distance = apex_distance_exec(pos, resolution, &triangles[start]);
    let mut k: usize = start + 1;
    while k < start + 3
        invariant
            start == candidate_start(*pos, resolution),
            start <= best < k <= start + 3,
            apexes_in_range(*pos, resolution, *triangles),
            best_distance == apex_distance(*pos, resolution, triangles[best as int]),
            forall|j: int| start <= j < k ==> best_distance <= apex_distance(*pos, resolution, #[trigger] triangles[j]),
            forall|j: int| start <= j < best ==> best_distance < apex_distance(*pos, resolution, #[trigger] triangles[j]),
        decreases start + 3 - k,
    {
        let d = apex_distance_exec(pos, resolution, &triangles[k]);
        if d < best_distance {
            best = k;
            best_distance = d;
        }
        k = k + 1;
    }
    best
}

/// How far direction `dir` is from the middle axis (half-way between the
/// x-axis and y-axis) of triangle `t`, in twelfths of a turn.
pub open spec fn mid_axis_angle(t: Triangle, dir: Dir) -> int {
    let middle_axis_dir = (t.x_dir + 1) % 12;
    let a = middle_axis_dir - dir.index;
    let a = if a > 6 {
        a - 12
    } else if a < -6 {
        a + 12
    } else {
        a
    };
    if a < 0 { -a } else { a }
}

fn mid_axis_angle_exec(t: &Triangle, dir: &Dir) -> (a: i16)
    ensures
        a == mid_axis_angle(*t, *dir),
{
    let middle_axis_dir: i16 = ((t.x_dir as u16 + 1) % 12) as i16;
    let mut a: i16 = middle_axis_dir - dir.index as i16;
    if a > 6 {
        a -= 12;
    } else if a < -6 {
        a += 12;
    }
    if a < 0 { -a } else { a }
}

/// For whatever triangles `pos` is sitting atop (whose apex is `pos`),
/// finds the one whose middle axis is closest to `dir`, returning its
/// index in `triangles`; the first such one when several are equally
/// close.
///
/// This is useful for re-basing while turning on a pentagon, without
/// unnecessarily re-basing into a neighbouring root. At least one
/// triangle must have its apex at `pos`.
pub fn triangle_on_pos_with_closest_mid_axis(
    pos: &GridPoint3,
    dir: &Dir,
    resolution: [GridCoord; 2],
    triangles: &[Triangle; 12],
) -> (i: usize)
    requires
        apexes_in_range(*pos, resolution, *triangles),
        exists|k: int| 0 <= k < 12 && apex_distance(*pos, resolution, #[trigger] triangles[k]) == 0,
    ensures
        i < 12,
        apex_distance(*pos, resolution, triangles[i as int]) == 0,
        forall|j: int|
            0 <= j < 12 && apex_distance(*pos, resolution, #[trigger] triangles[j]) == 0 ==> mid_axis_angle(
                triangles[i as int],
                *dir,
            ) <= mid_axis_angle(triangles[j], *dir),
        forall|j: int|
            0 <= j < i && apex_distance(*pos, resolution, #[trigger] triangles[j]) == 0 ==> mid_axis_angle(
                triangles[i as int],
                *dir,
            ) < mid_axis_angle(triangles[j], *dir),
{
    let mut best: Option<usize> = None;
    let mut best_angle: i16 = 0;
    let mut k: usize = 0;
    while k < 12
        invariant
            0 <= k <= 12,
            apexes_in_range(*pos, resolution, *triangles),
            match best {
                None => forall|j: int| 0 <= j < k ==> apex_distance(*pos, resolution, #[trigger] triangles[j]) != 0,
                Some(b) => {
                    &&& b < k
                    &&& apex_distance(*pos, resolution, triangles[b as int]) == 0
                    &&& best_angle == mid_axis_angle(triangles[b as int], *dir)
                    &&& forall|j: int|
                        0 <= j < k && apex_distance(*pos, resolution, #[trigger] triangles[j]) == 0
                            ==> best_angle <= mid_axis_angle(triangles[j], *dir)
                    &&& forall|j: int|
                        0 <= j < b && apex_distance(*pos, resolution, #[trigger] triangles[j]) == 0
                            ==> best_angle < mid_axis_angle(triangles[j], *dir)
                },
            },
        decreases 12 - k,
    {
        // There will be between one and three triangles that
        // we are exactly on top of.
        if apex_distance_exec(pos, resolution, &triangles[k]) == 0 {
            let a = mid_axis_angle_exec(&triangles[k], dir);
            match best {
                None => {
                    best = Some(k);
                    best_angle = a;
                },
                Some(_) => {
                    if a < best_angle {
                        best = Some(k);
                        best_angle = a;
                    }
                },
            }
        }
        k = k + 1;
    }
    match best {
        Some(b) => b,
        None => {
            proof {
                let w = choose|w: int| 0 <= w < 12 && apex_distance(*pos, resolution, #[trigger] triangles[w]) == 0;
                assert(apex_distance(*pos, resolution, triangles[w]) != 0);
            }
            0
        },
    }
}

} // verus!
