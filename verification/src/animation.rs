//! The animation: a fixed triangle, one new point for each tick of a timer,
//! and a drawing that is rebuilt once for every hundred points.

use vstd::prelude::*;
use crate::generator::{is_step, random_index, step};
use crate::point::Point;
use crate::render::{drawn, CachedScene, Primitive, RenderCache, Size};
use crate::store::{is_orbit, last_of, PointStore};

verus! {

/// The number of ticks after which the cached drawing is dropped.
pub const REFRESH_PERIOD: usize = 100;

/// What an animation holds.
pub struct AnimationView {
    pub vertices: Seq<Point>,
    pub points: Seq<Point>,
    pub max_points: nat,
    pub cache: Option<CachedScene>,
}

impl AnimationView {
    /// Three fixed vertices, an orbit of them, and no more points than the
    /// limit allows.
    pub open spec fn wf(self) -> bool {
        &&& self.vertices.len() == 3
        &&& is_orbit(self.vertices, self.points)
        &&& self.points.len() <= self.max_points
    }

    /// The state after a tick that appended `p`: the cached drawing is
    /// dropped where the number of points has become a multiple of
    /// `REFRESH_PERIOD`, and kept otherwise.
    pub open spec fn appended(self, p: Point) -> AnimationView {
        AnimationView {
            points: self.points.push(p),
            cache: if (self.points.len() as int + 1) % (REFRESH_PERIOD as int) == 0 {
                None
            } else {
                self.cache
            },
            ..self
        }
    }
}

/// The animated chaos game on a fixed triangle.
pub struct AnimationDriver {
    store: PointStore,
    max_points: usize,
    cache: RenderCache,
}

impl View for AnimationDriver {
    type V = AnimationView;

    closed spec fn view(&self) -> AnimationView {
        AnimationView {
            vertices: self.store@.vertices,
            points: self.store@.points,
            max_points: self.max_points as nat,
            cache: self.cache@,
        }
    }
}

impl AnimationDriver {
    /// An animation on the triangle `a`, `b`, `c` that stops to grow at
    /// `max_points` points.
    pub fn new(a: Point, b: Point, c: Point, max_points: usize) -> (d: AnimationDriver)
        ensures
            d@.wf(),
            d@ == (AnimationView {
                vertices: seq![a, b, c],
                points: Seq::empty(),
                max_points: max_points as nat,
                cache: None,
            }),
    {
        let mut vertices: Vec<Point> = Vec::new();
        vertices.push(a);
        vertices.push(b);
        vertices.push(c);
        proof {
            assert(vertices@ =~= seq![a, b, c]);
        }
        AnimationDriver {
            store: PointStore::with_vertices(vertices),
            max_points,
            cache: RenderCache::new(),
        }
    }

    /// The number of ticks that appended a point, which is the number of
    /// generated points.
    pub fn ticks(&self) -> (n: usize)
        ensures
            n == self@.points.len(),
    {
        self.store.len()
    }

    /// The three fixed vertices.
    pub fn vertices(&self) -> (v: &Vec<Point>)
        ensures
            v@ == self@.vertices,
    {
        self.store.vertices()
    }

    /// The generated points, oldest first.
    pub fn points(&self) -> (v: &Vec<Point>)
        ensures
            v@ == self@.points,
    {
        self.store.points()
    }

    /// A tick whose step goes towards the vertex at index `choice`. Nothing
    /// changes, and `None` is returned, where the limit is reached or
    /// `choice` is not below 3.
    pub fn tick_with(&mut self, choice: usize) -> (r: Option<Point>)
        requires
            old(self)@.wf(),
        ensures
            final(self)@.wf(),
            r is Some <==> old(self)@.points.len() < old(self)@.max_points && choice < 3,
            r is None ==> final(self)@ == old(self)@,
            r matches Some(p) ==> p == step(
                old(self)@.vertices,
                last_of(old(self)@.points),
                choice as int,
            ) && final(self)@ == old(self)@.appended(p),
    {
        if self.store.len() >= self.max_points {
            return None;
        }
        match self.store.append_chosen(choice) {
            Ok(p) => {
                if self.store.len() % REFRESH_PERIOD == 0 {
                    self.cache.invalidate();
                }
                Some(p)
            },
            Err(_) => None,
        }
    }

    /// A tick of the timer: appends a step towards a vertex chosen at
    /// random. Nothing changes, and `None` is returned, exactly where the
    /// limit is reached.
    pub fn tick(&mut self) -> (r: Option<Point>)
        requires
            old(self)@.wf(),
        ensures
            final(self)@.wf(),
            r is Some <==> old(self)@.points.len() < old(self)@.max_points,
            r is None ==> final(self)@ == old(self)@,
            r matches Some(p) ==> is_step(old(self)@.vertices, last_of(old(self)@.points), p)
                && final(self)@ == old(self)@.appended(p),
    {
        let choice: usize = random_index(3);
        self.tick_with(choice)
    }

    /// The drawing for a paint pass on a canvas of the given size: the
    /// cached one where there is one for this size, else a new one of all
    /// the points and the triangle, which is then cached.
    pub fn draw(&mut self, size: Size) -> (out: Vec<Primitive>)
        ensures
            out@ == drawn(old(self)@.cache, size, old(self)@.points, old(self)@.vertices),
            final(self)@ == (AnimationView {
                cache: Some(CachedScene { size, geometry: out@ }),
                ..old(self)@
            }),
    {
        self.cache.draw(size, self.store.points().as_slice(), self.store.vertices().as_slice())
    }
}

} // verus!
