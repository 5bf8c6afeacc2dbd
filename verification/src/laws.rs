//! What holds of the chaos game whatever the random choices are.

use vstd::prelude::*;
use crate::emulator::{GraphView, Message};
use crate::generator::{base_point, is_step, step};
use crate::point::{lemma_half_sum_between, midpoint, Point};
use crate::render::{drawn, scene, CachedScene, Size};
use crate::store::{
    choices_fit, extend, is_orbit, last_of, lemma_orbit_push, previous_of, StoreView,
};

verus! {

/// A step towards the vertex at index `k` is the exact midpoint of that
/// vertex and the base point: each coordinate is half of the sum of the two,
/// rounded towards negative infinity.
pub proof fn step_is_midpoint(vertices: Seq<Point>, previous: Option<Point>, k: int)
    requires
        0 <= k < vertices.len(),
    ensures
        is_step(vertices, previous, step(vertices, previous, k)),
        step(vertices, previous, k).x as int == (vertices[k].x as int + base_point(
            vertices,
            previous,
        ).x as int) / 2,
        step(vertices, previous, k).y as int == (vertices[k].y as int + base_point(
            vertices,
            previous,
        ).y as int) / 2,
{
    let base = base_point(vertices, previous);
    lemma_half_sum_between(vertices[k].x as int, base.x as int);
    lemma_half_sum_between(vertices[k].y as int, base.y as int);
}

/// Growing never removes or changes a point, and growing twice to the same
/// target is growing once: the first call leaves as many points as the
/// larger of the target and the earlier length, the second changes nothing.
pub proof fn grow_is_monotonic_and_idempotent(
    start: StoreView,
    target: int,
    once: StoreView,
    twice: StoreView,
)
    requires
        start.grown_to(target, once),
        once.grown_to(target, twice),
    ensures
        once.points.len() >= start.points.len(),
        once.points.len() >= target,
        once.points.len() == start.points.len() || once.points.len() == target,
        forall|i: int| 0 <= i < start.points.len() ==> once.points[i] == start.points[i],
        twice == once,
{
    assert forall|i: int| 0 <= i < start.points.len() implies once.points[i]
        == start.points[i] by {
        assert(once.points.subrange(0, start.points.len() as int)[i] == once.points[i]);
    }
    assert(twice.points.subrange(0, once.points.len() as int) =~= twice.points);
}

/// For a fixed sequence of choices the game is determined: the points that
/// follow are an orbit again, one for each choice, after the points that
/// were there.
pub proof fn replay_is_an_orbit(vertices: Seq<Point>, points: Seq<Point>, choices: Seq<usize>)
    requires
        is_orbit(vertices, points),
        choices_fit(vertices, choices),
    ensures
        is_orbit(vertices, extend(vertices, points, choices)),
        extend(vertices, points, choices).len() == points.len() + choices.len(),
        extend(vertices, points, choices).subrange(0, points.len() as int) == points,
    decreases choices.len(),
{
    if choices.len() == 0 {
        assert(points.subrange(0, points.len() as int) =~= points);
    } else {
        let shorter = choices.drop_last();
        assert forall|j: int| 0 <= j < shorter.len() implies (#[trigger] shorter[j])
            < vertices.len() by {
            assert(shorter[j] == choices[j]);
        }
        replay_is_an_orbit(vertices, points, shorter);
        let before = extend(vertices, points, shorter);
        let p = step(vertices, last_of(before), choices.last() as int);
        assert(choices[choices.len() - 1] < vertices.len());
        lemma_orbit_push(vertices, before, p);
        assert(before.push(p).subrange(0, points.len() as int) =~= before.subrange(
            0,
            points.len() as int,
        ));
    }
}

/// Adding or removing a fixed vertex leaves no generated point and sets
/// both counters of the iteration window to zero, whatever the state was.
pub proof fn vertex_change_resets(state: GraphView, p: Point)
    ensures
        state.after(Message::AddFixPoint(p)).random_points.len() == 0,
        state.after(Message::AddFixPoint(p)).max_iter == 0,
        state.after(Message::AddFixPoint(p)).cur_iter == 0,
        state.after(Message::AddFixPoint(p)).wf(),
        state.after(Message::RemoveFixPoint).random_points.len() == 0,
        state.after(Message::RemoveFixPoint).max_iter == 0,
        state.after(Message::RemoveFixPoint).cur_iter == 0,
        state.after(Message::RemoveFixPoint).wf(),
{
}

/// Removing a vertex where there is none changes nothing but the cached
/// drawing, which is dropped.
pub proof fn remove_from_empty_is_noop(state: GraphView)
    requires
        state.wf(),
        state.fix_points.len() == 0,
    ensures
        state.after(Message::RemoveFixPoint) == (GraphView { cache: None, ..state }),
{
    if state.random_points.len() > 0 {
        assert(is_step(
            state.fix_points,
            previous_of(state.random_points, 0),
            state.random_points[0],
        ));
    }
    assert(state.random_points =~= Seq::empty());
}

/// Whatever value a slider sends, the number of drawn points stays within
/// the window: `0 <= cur_iter <= max_iter`.
pub proof fn cur_iter_is_clamped(state: GraphView, c: i32)
    requires
        state.wf(),
    ensures
        0 <= state.after(Message::SetCurIter(c)).cur_iter <= state.after(
            Message::SetCurIter(c),
        ).max_iter,
        state.after(Message::SetCurIter(c)).max_iter == state.max_iter,
        0 <= c <= state.max_iter ==> state.after(Message::SetCurIter(c)).cur_iter == c,
        state.after(Message::SetCurIter(c)).wf(),
        state.after(Message::DrawCurIter(c)) == state.after(Message::SetCurIter(c)),
{
}

/// The window also holds after the other slider was moved: `cur_iter` never
/// exceeds the new `max_iter`.
pub proof fn window_holds_after_growth(state: GraphView, m: i32, next: GraphView)
    requires
        state.wf(),
        state.grown_to(m as int, next),
    ensures
        next.wf(),
        0 <= next.cur_iter <= next.max_iter <= next.random_points.len(),
{
}

/// Two paint passes on a canvas of one size, with no invalidation between
/// them, give the same drawing, whatever points the second is handed.
pub proof fn draw_repeats_cached(
    cached: Option<CachedScene>,
    size: Size,
    visible: Seq<Point>,
    vertices: Seq<Point>,
    later_visible: Seq<Point>,
    later_vertices: Seq<Point>,
)
    ensures
        drawn(
            Some(
                CachedScene { size, geometry: drawn(cached, size, visible, vertices) },
            ),
            size,
            later_visible,
            later_vertices,
        ) == drawn(cached, size, visible, vertices),
{
}

/// After an invalidation, and after a change of the canvas size, the
/// drawing is built anew from the points handed over: the border, a marker
/// for each visible point and a disc for each fixed vertex.
pub proof fn draw_rebuilds_when_stale(
    kept: CachedScene,
    size: Size,
    visible: Seq<Point>,
    vertices: Seq<Point>,
)
    ensures
        drawn(None, size, visible, vertices) == scene(size, visible, vertices),
        kept.size != size ==> drawn(Some(kept), size, visible, vertices) == scene(
            size,
            visible,
            vertices,
        ),
        scene(size, visible, vertices).len() == 1 + visible.len() + vertices.len(),
{
}

/// `p` lies in the box with the corners `low` and `high`.
pub open spec fn in_box(p: Point, low: Point, high: Point) -> bool {
    low.x <= p.x <= high.x && low.y <= p.y <= high.y
}

/// The midpoint of two points of a box lies in the box.
pub proof fn midpoint_stays_in_box(a: Point, b: Point, low: Point, high: Point)
    requires
        in_box(a, low, high),
        in_box(b, low, high),
    ensures
        in_box(midpoint(a, b), low, high),
{
    lemma_half_sum_between(a.x as int, b.x as int);
    lemma_half_sum_between(a.y as int, b.y as int);
}

/// The point at position `i` of an orbit lies in each box that holds all
/// the fixed vertices.
pub proof fn orbit_point_in_box(
    vertices: Seq<Point>,
    points: Seq<Point>,
    low: Point,
    high: Point,
    i: int,
)
    requires
        is_orbit(vertices, points),
        forall|k: int| 0 <= k < vertices.len() ==> in_box(#[trigger] vertices[k], low, high),
        0 <= i < points.len(),
    ensures
        in_box(points[i], low, high),
    decreases i,
{
    let previous = previous_of(points, i);
    assert(is_step(vertices, previous, points[i]));
    let k = choose|k: int|
        0 <= k < vertices.len() && points[i] == #[trigger] step(vertices, previous, k);
    if i > 0 {
        orbit_point_in_box(vertices, points, low, high, i - 1);
    }
    assert(in_box(vertices[0], low, high));
    midpoint_stays_in_box(vertices[k], base_point(vertices, previous), low, high);
}

/// Every point of an orbit lies in each box that holds all the fixed
/// vertices.
pub proof fn orbit_stays_in_box(vertices: Seq<Point>, points: Seq<Point>, low: Point, high: Point)
    requires
        is_orbit(vertices, points),
        forall|k: int| 0 <= k < vertices.len() ==> in_box(#[trigger] vertices[k], low, high),
    ensures
        forall|i: int| 0 <= i < points.len() ==> in_box(#[trigger] points[i], low, high),
{
    assert forall|i: int| 0 <= i < points.len() implies in_box(
        #[trigger] points[i],
        low,
        high,
    ) by {
        orbit_point_in_box(vertices, points, low, high, i);
    }
}

} // verus!
