//! Spatial tagging: which regions of the map a point lies in, and the label
//! that the regions give to the point.
//!
//! Coordinates are whole units. A region is a ring of vertices: every vertex
//! is joined to the next one and the last one to the first. A point is inside
//! when a ray from it towards larger `x` crosses the ring an odd number of
//! times; the crossing test is exact.

use crate::output_type::{AreaVolume, AreaVolumeView, Vector2};
use crate::text::{copy_text, join, joined};
use vstd::prelude::*;

verus! {

/// Whether the ray from `p` towards larger `x` crosses the edge from `a` to
/// `b`: the ends of the edge lie on different sides of the height of `p`, and
/// the edge passes that height at an `x` beyond that of `p`.
pub open spec fn crosses(a: Vector2<i32>, b: Vector2<i32>, p: Vector2<i32>) -> bool {
    &&& (a.y > p.y) != (b.y > p.y)
    &&& if b.y > a.y {
        (p.y - a.y) * (b.x - a.x) > (p.x - a.x) * (b.y - a.y)
    } else {
        (p.y - a.y) * (b.x - a.x) < (p.x - a.x) * (b.y - a.y)
    }
}

/// The vertex at which the edge that starts at vertex `i` ends.
pub open spec fn edge_end(ring: Seq<Vector2<i32>>, i: int) -> Vector2<i32> {
    if i + 1 < ring.len() {
        ring[i + 1]
    } else {
        ring[0]
    }
}

/// How many of the first `n` edges of the ring the ray from `p` crosses.
pub open spec fn crossings(ring: Seq<Vector2<i32>>, p: Vector2<i32>, n: int) -> nat
    decreases n,
{
    if n <= 0 {
        0
    } else {
        let before = crossings(ring, p, n - 1);
        if crosses(ring[n - 1], edge_end(ring, n - 1), p) {
            before + 1
        } else {
            before
        }
    }
}

/// Whether `p` lies inside the ring. A ring of fewer than three vertices has
/// no inside.
pub open spec fn inside(p: Vector2<i32>, ring: Seq<Vector2<i32>>) -> bool {
    ring.len() >= 3 && crossings(ring, p, ring.len() as int) % 2 == 1
}

/// A ring of fewer than three vertices contains no point.
pub proof fn lemma_small_ring_is_empty(p: Vector2<i32>, ring: Seq<Vector2<i32>>)
    requires
        ring.len() < 3,
    ensures
        !inside(p, ring),
{
}

/// Products of coordinate differences stay far inside the 128-bit range.
proof fn lemma_product_bound(a: int, b: int)
    requires
        -0x1_0000_0000 <= a <= 0x1_0000_0000,
        -0x1_0000_0000 <= b <= 0x1_0000_0000,
    ensures
        -0x1_0000_0000_0000_0000 <= a * b <= 0x1_0000_0000_0000_0000,
{
    assert(-0x1_0000_0000_0000_0000 <= a * b <= 0x1_0000_0000_0000_0000) by (nonlinear_arith)
        requires
            -0x1_0000_0000 <= a <= 0x1_0000_0000,
            -0x1_0000_0000 <= b <= 0x1_0000_0000,
    ;
}

/// Whether the ray from `p` crosses the edge from `a` to `b`.
pub fn edge_crosses(a: &Vector2<i32>, b: &Vector2<i32>, p: &Vector2<i32>) -> (r: bool)
    ensures
        r == crosses(*a, *b, *p),
{
    if (a.y > p.y) == (b.y > p.y) {
        return false;
    }
    let rise: i128 = (p.y as i64 - a.y as i64) as i128;
    let run: i128 = (b.x as i64 - a.x as i64) as i128;
    let ahead: i128 = (p.x as i64 - a.x as i64) as i128;
    let height: i128 = (b.y as i64 - a.y as i64) as i128;
    proof {
        lemma_product_bound(rise as int, run as int);
        lemma_product_bound(ahead as int, height as int);
    }
    let left: i128 = rise * run;
    let right: i128 = ahead * height;
    if b.y > a.y {
        left > right
    } else {
        left < right
    }
}

/// Whether `point` lies inside `polygon`.
pub fn point_in_polygon(point: &Vector2<i32>, polygon: &[Vector2<i32>]) -> (r: bool)
    ensures
        r == inside(*point, polygon@),
        polygon@.len() < 3 ==> !r,
{
    let n = polygon.len();
    if n < 3 {
        return false;
    }
    let mut odd = false;
    let mut i: usize = 0;
    while i < n
        invariant
            i <= n,
            n == polygon@.len(),
            n >= 3,
            odd == (crossings(polygon@, *point, i as int) % 2 == 1),
        decreases n - i,
    {
        let next: usize = if i + 1 < n {
            i + 1
        } else {
            0
        };
        if edge_crosses(&polygon[i], &polygon[next], point) {
            odd = !odd;
        }
        i += 1;
    }
    odd
}

/// The regions, in the order given, that contain `point`.
pub fn get_enclose_area(point: &Vector2<i32>, areas: &[AreaVolume<i32>]) -> (r: Vec<
    AreaVolume<i32>,
>)
    ensures
        r.deep_view() == areas.deep_view().filter(
            |area: AreaVolumeView<i32>| inside(*point, area.vertex),
        ),
{
    let ghost all = areas.deep_view();
    let ghost contains = |area: AreaVolumeView<i32>| inside(*point, area.vertex);
    let mut out: Vec<AreaVolume<i32>> = Vec::new();
    let mut i: usize = 0;
    proof {
        reveal(Seq::filter);
        assert(all.take(0).len() == 0);
        assert(out.deep_view() =~= all.take(0).filter(contains));
    }
    while i < areas.len()
        invariant
            i <= areas.len(),
            all == areas.deep_view(),
            contains == (|area: AreaVolumeView<i32>| inside(*point, area.vertex)),
            out.deep_view() == all.take(i as int).filter(contains),
        decreases areas.len() - i,
    {
        let area = &areas[i];
        proof {
            reveal(Seq::filter);
            assert(all.take(i + 1).drop_last() == all.take(i as int));
            assert(all.take(i + 1).last() == area.deep_view());
        }
        if point_in_polygon(point, area.vertex.as_slice()) {
            let mut vertex: Vec<Vector2<i32>> = Vec::new();
            let mut k: usize = 0;
            while k < area.vertex.len()
                invariant
                    k <= area.vertex.len(),
                    vertex@ == area.vertex@.take(k as int),
                decreases area.vertex.len() - k,
            {
                vertex.push(area.vertex[k]);
                proof {
                    assert(area.vertex@.take(k + 1) =~= area.vertex@.take(k as int).push(
                        area.vertex@[k as int],
                    ));
                }
                k += 1;
            }
            proof {
                assert(area.vertex@.take(area.vertex@.len() as int) == area.vertex@);
            }
            let copy = AreaVolume {
                name: copy_text(area.name.as_str()),
                flag: copy_text(area.flag.as_str()),
                vertex,
            };
            let ghost before = out.deep_view();
            out.push(copy);
            proof {
                assert(out.deep_view() =~= before.push(area.deep_view()));
            }
        }
        i += 1;
    }
    proof {
        assert(all.take(all.len() as int) == all);
    }
    out
}

/// The name of the first region that carries `flag`.
pub open spec fn first_with_flag<F>(areas: Seq<AreaVolumeView<F>>, flag: Seq<char>) -> Option<
    Seq<char>,
>
    decreases areas.len(),
{
    if areas.len() == 0 {
        None
    } else if areas[0].flag == flag {
        Some(areas[0].name)
    } else {
        first_with_flag(areas.drop_first(), flag)
    }
}

/// Regions that carry other flags can be skipped.
pub proof fn lemma_first_with_flag_skip<F>(areas: Seq<AreaVolumeView<F>>, flag: Seq<char>, n: int)
    requires
        0 <= n <= areas.len(),
        forall|j: int| 0 <= j < n ==> (#[trigger] areas[j]).flag != flag,
    ensures
        first_with_flag(areas, flag) == first_with_flag(areas.skip(n), flag),
    decreases n,
{
    if n == 0 {
        assert(areas.skip(0) == areas);
    } else {
        let rest = areas.drop_first();
        assert(areas[0].flag != flag);
        assert forall|j: int| 0 <= j < n - 1 implies (#[trigger] rest[j]).flag != flag by {
            assert(rest[j] == areas[j + 1]);
        }
        lemma_first_with_flag_skip(rest, flag, n - 1);
        assert(rest.skip(n - 1) == areas.skip(n));
    }
}

/// The name, as a list of one, or the empty list where there is none.
pub open spec fn named(name: Option<Seq<char>>) -> Seq<Seq<char>> {
    match name {
        Some(n) => seq![n],
        None => Seq::empty(),
    }
}

/// The names that make up the label of a point: the first race track, the
/// first small area, the first large area and the first zone among the
/// regions, in this order of precedence.
pub open spec fn location_parts<F>(areas: Seq<AreaVolumeView<F>>) -> Seq<Seq<char>> {
    named(first_with_flag(areas, "EMTAreaVolumeFlags::RaceTrack"@)) + named(
        first_with_flag(areas, "EMTAreaVolumeFlags::SmallArea"@),
    ) + named(first_with_flag(areas, "EMTAreaVolumeFlags::LargeArea"@)) + named(
        first_with_flag(areas, "EMTAreaVolumeFlags::Zone"@),
    )
}

/// The label of a point: its names joined with `", "`.
pub open spec fn location_label<F>(areas: Seq<AreaVolumeView<F>>) -> Seq<char> {
    joined(location_parts(areas), ", "@)
}

/// Finds the name of the first region that carries `flag`.
pub fn find_flagged<'a, F>(area: &'a [AreaVolume<F>], flag: &str) -> (r: Option<&'a String>)
    ensures
        r.deep_view() == first_with_flag(area.deep_view(), flag@),
{
    let ghost all = area.deep_view();
    let mut i: usize = 0;
    while i < area.len()
        invariant
            i <= area.len(),
            all == area.deep_view(),
            forall|j: int| 0 <= j < i ==> (#[trigger] all[j]).flag != flag@,
        decreases area.len() - i,
    {
        proof {
            assert(all[i as int] == area@[i as int].deep_view());
        }
        if *area[i].flag.as_str() == *flag {
            proof {
                lemma_first_with_flag_skip(all, flag@, i as int);
                assert(all.skip(i as int)[0] == all[i as int]);
            }
            return Some(&area[i].name);
        }
        i += 1;
    }
    proof {
        lemma_first_with_flag_skip(all, flag@, all.len() as int);
    }
    None
}

fn push_named(parts: &mut Vec<String>, name: Option<&String>)
    ensures
        final(parts).deep_view() == old(parts).deep_view() + named(name.deep_view()),
{
    let ghost before = parts.deep_view();
    match name {
        Some(n) => {
            parts.push(copy_text(n.as_str()));
            proof {
                assert(parts.deep_view() =~= before + seq![n@]);
            }
        },
        None => {
            proof {
                assert(parts.deep_view() =~= before + Seq::<Seq<char>>::empty());
            }
        },
    }
}

/// The label that the regions give: the matched names by precedence of
/// flag, joined with `", "`.
pub fn area_volumes_to_location<F>(area: &[AreaVolume<F>]) -> (r: String)
    ensures
        r@ == location_label(area.deep_view()),
{
    let mut parts: Vec<String> = Vec::new();
    proof {
        assert(parts.deep_view() =~= Seq::<Seq<char>>::empty());
    }
    push_named(&mut parts, find_flagged(area, "EMTAreaVolumeFlags::RaceTrack"));
    push_named(&mut parts, find_flagged(area, "EMTAreaVolumeFlags::SmallArea"));
    push_named(&mut parts, find_flagged(area, "EMTAreaVolumeFlags::LargeArea"));
    push_named(&mut parts, find_flagged(area, "EMTAreaVolumeFlags::Zone"));
    proof {
        assert(parts.deep_view() =~= location_parts(area.deep_view()));
    }
    join(&parts, ", ")
}

/// The label of `point`: that of the regions that contain it.
pub fn locate(point: &Vector2<i32>, areas: &[AreaVolume<i32>]) -> (r: String)
    ensures
        r@ == location_label(
            areas.deep_view().filter(|area: AreaVolumeView<i32>| inside(*point, area.vertex)),
        ),
{
    let enclosing = get_enclose_area(point, areas);
    let found = enclosing.as_slice();
    proof {
        assert(found.deep_view() =~= enclosing.deep_view());
    }
    area_volumes_to_location(found)
}

} // verus!
