//! The fixed vertices and the points generated from them.

use vstd::prelude::*;
use crate::generator::{generate_at, is_step, random_index, step, step_result, ChaosError};
use crate::point::Point;

verus! {

/// The point before position `i` of a sequence, if there is one.
pub open spec fn previous_of(points: Seq<Point>, i: int) -> Option<Point> {
    if i <= 0 {
        None
    } else {
        Some(points[i - 1])
    }
}

/// The last point of a sequence, if there is one.
pub open spec fn last_of(points: Seq<Point>) -> Option<Point> {
    previous_of(points, points.len() as int)
}

/// Every point of the sequence is a step from the one before it (the first
/// from the first fixed vertex) towards some fixed vertex.
pub open spec fn is_orbit(vertices: Seq<Point>, points: Seq<Point>) -> bool {
    forall|i: int|
        0 <= i < points.len() ==> is_step(vertices, previous_of(points, i), #[trigger] points[i])
}

/// Every choice names a fixed vertex.
pub open spec fn choices_fit(vertices: Seq<Point>, choices: Seq<usize>) -> bool {
    forall|j: int| 0 <= j < choices.len() ==> (#[trigger] choices[j]) < vertices.len()
}

/// The points that follow from `points` when one step is made for each of
/// `choices`, in order.
pub open spec fn extend(vertices: Seq<Point>, points: Seq<Point>, choices: Seq<usize>) -> Seq<
    Point,
>
    decreases choices.len(),
{
    if choices.len() == 0 {
        points
    } else {
        let before = extend(vertices, points, choices.drop_last());
        before.push(step(vertices, last_of(before), choices.last() as int))
    }
}

/// What growing by a sequence of choices returns.
pub open spec fn replay_result(vertices: Seq<Point>, choices: Seq<usize>) -> Result<
    (),
    ChaosError,
> {
    if vertices.len() == 0 {
        Err(ChaosError::InvalidState)
    } else if !choices_fit(vertices, choices) {
        Err(ChaosError::ChoiceOutOfRange)
    } else {
        Ok(())
    }
}

/// Appending a step to an orbit gives an orbit.
pub proof fn lemma_orbit_push(vertices: Seq<Point>, points: Seq<Point>, p: Point)
    requires
        is_orbit(vertices, points),
        is_step(vertices, last_of(points), p),
    ensures
        is_orbit(vertices, points.push(p)),
{
    let longer = points.push(p);
    assert forall|i: int| 0 <= i < longer.len() implies is_step(
        vertices,
        previous_of(longer, i),
        #[trigger] longer[i],
    ) by {
        if i < points.len() {
            assert(longer[i] == points[i]);
            assert(previous_of(longer, i) == previous_of(points, i));
        } else {
            assert(previous_of(longer, i) == last_of(points));
        }
    }
}

/// What a store holds.
pub struct StoreView {
    pub vertices: Seq<Point>,
    pub points: Seq<Point>,
}

impl StoreView {
    /// `next` is a state that growing to `target` points may leave behind:
    /// the fixed vertices and the points that exist are kept, and steps
    /// follow them until there are `target` points.
    pub open spec fn grown_to(self, target: int, next: StoreView) -> bool {
        &&& next.vertices == self.vertices
        &&& next.points.len() == if target > self.points.len() {
            target
        } else {
            self.points.len() as int
        }
        &&& next.points.subrange(0, self.points.len() as int) == self.points
        &&& is_orbit(next.vertices, next.points)
    }
}

/// The fixed vertices of a chaos game and the points generated so far.
pub struct PointStore {
    vertices: Vec<Point>,
    points: Vec<Point>,
}

impl View for PointStore {
    type V = StoreView;

    closed spec fn view(&self) -> StoreView {
        StoreView { vertices: self.vertices@, points: self.points@ }
    }
}

impl PointStore {
    /// The generated points are an orbit of the fixed vertices. Without
    /// fixed vertices there are therefore no generated points.
    pub open spec fn wf(&self) -> bool {
        is_orbit(self@.vertices, self@.points)
    }

    /// A store without vertices and without points.
    pub fn new() -> (s: PointStore)
        ensures
            s.wf(),
            s@.vertices == Seq::<Point>::empty(),
            s@.points == Seq::<Point>::empty(),
    {
        PointStore { vertices: Vec::new(), points: Vec::new() }
    }

    /// A store with the given fixed vertices and no generated point.
    pub fn with_vertices(vertices: Vec<Point>) -> (s: PointStore)
        ensures
            s.wf(),
            s@.vertices == vertices@,
            s@.points == Seq::<Point>::empty(),
    {
        PointStore { vertices, points: Vec::new() }
    }

    /// The fixed vertices, in the order in which they were added.
    pub fn vertices(&self) -> (v: &Vec<Point>)
        ensures
            v@ == self@.vertices,
    {
        &self.vertices
    }

    /// The generated points, oldest first.
    pub fn points(&self) -> (v: &Vec<Point>)
        ensures
            v@ == self@.points,
    {
        &self.points
    }

    /// The number of generated points.
    pub fn len(&self) -> (n: usize)
        ensures
            n == self@.points.len(),
    {
        self.points.len()
    }

    /// Whether there is no fixed vertex.
    pub fn has_no_vertex(&self) -> (b: bool)
        ensures
            b == (self@.vertices.len() == 0),
    {
        self.vertices.len() == 0
    }

    /// Adds a fixed vertex at the end and drops every generated point.
    pub fn add_vertex(&mut self, p: Point)
        ensures
            final(self).wf(),
            final(self)@.vertices == old(self)@.vertices.push(p),
            final(self)@.points == Seq::<Point>::empty(),
    {
        self.vertices.push(p);
        self.points.clear();
    }

    /// Removes the last fixed vertex and drops every generated point.
    /// Without a vertex it fails with `EmptyCollection` and changes nothing.
    pub fn remove_vertex(&mut self) -> (r: Result<Point, ChaosError>)
        requires
            old(self).wf(),
        ensures
            final(self).wf(),
            final(self)@.points == Seq::<Point>::empty(),
            old(self)@.vertices.len() == 0 ==> r == Err::<Point, ChaosError>(
                ChaosError::EmptyCollection,
            ) && final(self)@ == old(self)@,
            old(self)@.vertices.len() > 0 ==> r == Ok::<Point, ChaosError>(
                old(self)@.vertices.last(),
            ) && final(self)@.vertices == old(self)@.vertices.drop_last(),
    {
        match self.vertices.pop() {
            Some(p) => {
                self.points.clear();
                Ok(p)
            },
            None => {
                proof {
                    if self.points@.len() > 0 {
                        assert(is_step(
                            self.vertices@,
                            previous_of(self.points@, 0),
                            self.points@[0],
                        ));
                    }
                    assert(self.points@ =~= Seq::<Point>::empty());
                }
                Err(ChaosError::EmptyCollection)
            },
        }
    }

    /// Appends the step from the last point towards the vertex at index
    /// `choice`. On an error nothing changes.
    pub fn append_chosen(&mut self, choice: usize) -> (r: Result<Point, ChaosError>)
        requires
            old(self).wf(),
        ensures
            final(self).wf(),
            final(self)@.vertices == old(self)@.vertices,
            r == step_result(old(self)@.vertices, last_of(old(self)@.points), choice as int),
            r matches Ok(p) ==> final(self)@.points == old(self)@.points.push(p),
            r is Err ==> final(self)@.points == old(self)@.points,
    {
        let previous: Option<Point> = if self.points.len() == 0 {
            None
        } else {
            Some(self.points[self.points.len() - 1])
        };
        match generate_at(&self.vertices, previous, choice) {
            Ok(p) => {
                proof {
                    assert(p == step(self.vertices@, last_of(self.points@), choice as int));
                    lemma_orbit_push(self.vertices@, self.points@, p);
                }
                self.points.push(p);
                Ok(p)
            },
            Err(e) => Err(e),
        }
    }

    /// Appends one step for each of `choices`, in order: the game with the
    /// random source replaced by a fixed sequence. Fails with
    /// `InvalidState` where there is no fixed vertex, and with
    /// `ChoiceOutOfRange` where a choice names none; then nothing changes.
    pub fn grow_with(&mut self, choices: &[usize]) -> (r: Result<(), ChaosError>)
        requires
            old(self).wf(),
        ensures
            final(self).wf(),
            final(self)@.vertices == old(self)@.vertices,
            r == replay_result(old(self)@.vertices, choices@),
            r is Ok ==> final(self)@.points == extend(
                old(self)@.vertices,
                old(self)@.points,
                choices@,
            ),
            r is Err ==> final(self)@.points == old(self)@.points,
    {
        if self.vertices.len() == 0 {
            return Err(ChaosError::InvalidState);
        }
        let mut j: usize = 0;
        while j < choices.len()
            invariant
                j <= choices@.len(),
                self.wf(),
                self@ == old(self)@,
                self@.vertices.len() > 0,
                forall|i: int| 0 <= i < j ==> (#[trigger] choices@[i]) < self@.vertices.len(),
            decreases choices@.len() - j,
        {
            if choices[j] >= self.vertices.len() {
                assert(choices@[j as int] >= self@.vertices.len());
                return Err(ChaosError::ChoiceOutOfRange);
            }
            j += 1;
        }
        let mut i: usize = 0;
        while i < choices.len()
            invariant
                i <= choices@.len(),
                self.wf(),
                self@.vertices == old(self)@.vertices,
                choices_fit(self@.vertices, choices@),
                self@.points == extend(
                    old(self)@.vertices,
                    old(self)@.points,
                    choices@.take(i as int),
                ),
            decreases choices@.len() - i,
        {
            let appended = self.append_chosen(choices[i]);
            proof {
                assert(appended is Ok);
                assert(choices@.take(i + 1).drop_last() =~= choices@.take(i as int));
                assert(choices@.take(i + 1).last() == choices@[i as int]);
            }
            i += 1;
        }
        proof {
            assert(choices@.take(i as int) =~= choices@);
        }
        Ok(())
    }

    /// Appends one point, a step towards a vertex chosen at random. Fails
    /// with `InvalidState`, and changes nothing, exactly when there is no
    /// fixed vertex.
    pub fn append_one(&mut self) -> (r: Result<Point, ChaosError>)
        requires
            old(self).wf(),
        ensures
            final(self).wf(),
            final(self)@.vertices == old(self)@.vertices,
            old(self)@.vertices.len() == 0 <==> r is Err,
            r is Err ==> r == Err::<Point, ChaosError>(ChaosError::InvalidState) && final(self)@
                == old(self)@,
            r matches Ok(p) ==> final(self)@.points == old(self)@.points.push(p) && is_step(
                old(self)@.vertices,
                last_of(old(self)@.points),
                p,
            ),
    {
        if self.vertices.len() == 0 {
            return Err(ChaosError::InvalidState);
        }
        let choice: usize = random_index(self.vertices.len());
        self.append_chosen(choice)
    }

    /// Appends random steps until there are at least `target` points. Fails
    /// with `InvalidState`, and changes nothing, exactly when there is no
    /// fixed vertex. Points that exist are never removed or changed.
    pub fn grow_to(&mut self, target: usize) -> (r: Result<(), ChaosError>)
        requires
            old(self).wf(),
        ensures
            final(self).wf(),
            final(self)@.vertices == old(self)@.vertices,
            old(self)@.vertices.len() == 0 <==> r is Err,
            r is Err ==> r == Err::<(), ChaosError>(ChaosError::InvalidState) && final(self)@
                == old(self)@,
            r is Ok ==> old(self)@.grown_to(target as int, final(self)@),
    {
        if self.vertices.len() == 0 {
            return Err(ChaosError::InvalidState);
        }
        while self.points.len() < target
            invariant
                self.wf(),
                self@.vertices == old(self)@.vertices,
                self@.vertices.len() > 0,
                old(self)@.points.len() <= self@.points.len(),
                self@.points.len() <= target || self@.points.len() == old(self)@.points.len(),
                self@.points.subrange(0, old(self)@.points.len() as int) == old(self)@.points,
            decreases target - self.points.len(),
        {
            let choice: usize = random_index(self.vertices.len());
            let ghost before = self@.points;
            let appended = self.append_chosen(choice);
            proof {
                assert(appended is Ok);
                assert(self@.points.subrange(0, old(self)@.points.len() as int) =~= before.subrange(
                    0,
                    old(self)@.points.len() as int,
                ));
            }
        }
        Ok(())
    }
}

} // verus!
