//! The interactive emulator: fixed vertices placed by pointer clicks, and an
//! iteration window that says how many points exist and how many of them
//! are drawn.

use vstd::prelude::*;
use vstd::slice::slice_subrange;
use crate::config::Config;
use crate::generator::{generate, is_step, ChaosError};
use crate::point::Point;
use crate::render::{drawn, CachedScene, Primitive, RenderCache, Size};
use crate::store::{is_orbit, last_of, PointStore, StoreView};

verus! {

/// A request to change the state of the emulator.
#[derive(Clone, Copy, Debug, PartialEq, Eq, Structural)]
pub enum Message {
    /// The slider of the number of points that exist was moved.
    SetMaxIter(i32),
    /// The slider of the number of points that are drawn was moved.
    SetCurIter(i32),
    /// The number of points that are drawn is set by the program.
    DrawCurIter(i32),
    /// A fixed vertex is added at this position.
    AddFixPoint(Point),
    /// The last fixed vertex is removed.
    RemoveFixPoint,
}

/// A button of the pointer.
#[derive(Clone, Copy, Debug, PartialEq, Eq, Structural)]
pub enum MouseButton {
    Left,
    Right,
    Middle,
    Other,
}

/// An event that the canvas receives from the host.
#[derive(Clone, Copy, Debug, PartialEq, Eq, Structural)]
pub enum CanvasEvent {
    /// A button of the pointer went down.
    ButtonPressed(MouseButton),
    /// Any other event of the pointer.
    OtherMouse,
    /// An event of the keyboard.
    Keyboard,
}

/// Whether the canvas has used an event.
#[derive(Clone, Copy, Debug, PartialEq, Eq, Structural)]
pub enum Status {
    Ignored,
    Captured,
}

/// What the canvas answers to an event. `cursor` is the position of the
/// pointer within the canvas, or `None` where the pointer is outside.
pub open spec fn reaction(event: CanvasEvent, cursor: Option<Point>) -> (Status, Option<Message>) {
    match cursor {
        None => (Status::Ignored, None),
        Some(position) => match event {
            CanvasEvent::ButtonPressed(MouseButton::Left) => (
                Status::Captured,
                Some(Message::AddFixPoint(position)),
            ),
            CanvasEvent::ButtonPressed(MouseButton::Right) => (
                Status::Captured,
                Some(Message::RemoveFixPoint),
            ),
            CanvasEvent::ButtonPressed(_) => (Status::Captured, None),
            CanvasEvent::OtherMouse => (Status::Captured, None),
            CanvasEvent::Keyboard => (Status::Ignored, None),
        },
    }
}

/// A count of iterations brought into the window from 0 to `max`.
pub open spec fn clamp_iter(c: int, max: int) -> int {
    if c < 0 {
        0
    } else if c > max {
        max
    } else {
        c
    }
}

/// What a graph holds.
pub struct GraphView {
    pub max_iter: int,
    pub cur_iter: int,
    pub fix_points: Seq<Point>,
    pub random_points: Seq<Point>,
    pub bound: Size,
    pub cache: Option<CachedScene>,
}

impl GraphView {
    /// The generated points are an orbit of the fixed vertices, and
    /// `0 <= cur_iter <= max_iter`, with at least `max_iter` points.
    pub open spec fn wf(self) -> bool {
        &&& is_orbit(self.fix_points, self.random_points)
        &&& 0 <= self.cur_iter <= self.max_iter <= self.random_points.len()
    }

    /// The fixed vertices and the generated points.
    pub open spec fn store(self) -> StoreView {
        StoreView { vertices: self.fix_points, points: self.random_points }
    }

    /// The points that are drawn: the first `cur_iter` of those generated.
    pub open spec fn visible(self) -> Seq<Point> {
        self.random_points.subrange(0, self.cur_iter)
    }

    /// The state after a message other than `SetMaxIter`. A change of the
    /// fixed vertices drops the generated points and sets both counters to
    /// zero; every message drops the cached drawing.
    pub open spec fn after(self, message: Message) -> GraphView {
        match message {
            Message::SetMaxIter(_) => self,
            Message::SetCurIter(c) => GraphView {
                cur_iter: clamp_iter(c as int, self.max_iter),
                cache: None,
                ..self
            },
            Message::DrawCurIter(c) => GraphView {
                cur_iter: clamp_iter(c as int, self.max_iter),
                cache: None,
                ..self
            },
            Message::AddFixPoint(p) => GraphView {
                max_iter: 0,
                cur_iter: 0,
                fix_points: self.fix_points.push(p),
                random_points: Seq::empty(),
                bound: self.bound,
                cache: None,
            },
            Message::RemoveFixPoint => GraphView {
                max_iter: 0,
                cur_iter: 0,
                fix_points: if self.fix_points.len() > 0 {
                    self.fix_points.drop_last()
                } else {
                    self.fix_points
                },
                random_points: Seq::empty(),
                bound: self.bound,
                cache: None,
            },
        }
    }

    /// `next` is a state that `SetMaxIter(m)` may leave behind: `max_iter`
    /// is `m`, or 0 for a negative `m`; the generated points are kept and
    /// new ones follow them until there are `max_iter`; `cur_iter` stays
    /// within the window; the cached drawing is dropped.
    pub open spec fn grown_to(self, m: int, next: GraphView) -> bool {
        &&& next.max_iter == if m < 0 {
            0
        } else {
            m
        }
        &&& next.cur_iter == clamp_iter(self.cur_iter, next.max_iter)
        &&& self.store().grown_to(next.max_iter, next.store())
        &&& next.bound == self.bound
        &&& next.cache is None
    }
}

/// The canvas of the emulator: the chaos game, the iteration window and the
/// cached drawing.
pub struct SierpinskiGraph {
    max_iter: i32,
    cur_iter: i32,
    store: PointStore,
    bound: Size,
    cache: RenderCache,
}

impl View for SierpinskiGraph {
    type V = GraphView;

    closed spec fn view(&self) -> GraphView {
        GraphView {
            max_iter: self.max_iter as int,
            cur_iter: self.cur_iter as int,
            fix_points: self.store@.vertices,
            random_points: self.store@.points,
            bound: self.bound,
            cache: self.cache@,
        }
    }
}

impl SierpinskiGraph {
    /// An empty graph on a canvas of 600 by 600.
    pub fn new() -> (g: SierpinskiGraph)
        ensures
            g@.wf(),
            g@ == (GraphView {
                max_iter: 0,
                cur_iter: 0,
                fix_points: Seq::empty(),
                random_points: Seq::empty(),
                bound: Size { width: 600, height: 600 },
                cache: None,
            }),
    {
        SierpinskiGraph::with_bound(Config::interactive().canvas_size())
    }

    /// An empty graph on a canvas of the given size.
    pub fn with_bound(bound: Size) -> (g: SierpinskiGraph)
        ensures
            g@.wf(),
            g@ == (GraphView {
                max_iter: 0,
                cur_iter: 0,
                fix_points: Seq::empty(),
                random_points: Seq::empty(),
                bound,
                cache: None,
            }),
    {
        SierpinskiGraph {
            max_iter: 0,
            cur_iter: 0,
            store: PointStore::new(),
            bound,
            cache: RenderCache::new(),
        }
    }

    /// The number of points that should exist.
    pub fn max_iter(&self) -> (n: i32)
        ensures
            n == self@.max_iter,
    {
        self.max_iter
    }

    /// The number of points that are drawn.
    pub fn cur_iter(&self) -> (n: i32)
        ensures
            n == self@.cur_iter,
    {
        self.cur_iter
    }

    /// The size of the canvas.
    pub fn bound(&self) -> (s: Size)
        ensures
            s == self@.bound,
    {
        self.bound
    }

    /// The fixed vertices, in the order in which they were added.
    pub fn fix_points(&self) -> (v: &Vec<Point>)
        ensures
            v@ == self@.fix_points,
    {
        self.store.vertices()
    }

    /// The generated points, oldest first.
    pub fn random_points(&self) -> (v: &Vec<Point>)
        ensures
            v@ == self@.random_points,
    {
        self.store.points()
    }

    /// The points that are drawn.
    pub fn visible_points(&self) -> (v: &[Point])
        requires
            self@.wf(),
        ensures
            v@ == self@.visible(),
    {
        slice_subrange(self.store.points().as_slice(), 0, self.cur_iter as usize)
    }

    /// Drops the cached drawing, so that the next paint pass rebuilds it.
    pub fn redraw(&mut self)
        ensures
            final(self)@ == (GraphView { cache: None, ..old(self)@ }),
    {
        self.cache.invalidate();
    }

    /// The next point of the game, not yet stored: a step from the last
    /// generated point (from the first fixed vertex where there is none)
    /// towards a fixed vertex chosen at random. Fails with `InvalidState`
    /// exactly when there is no fixed vertex.
    pub fn gen_rand_point(&self) -> (r: Result<Point, ChaosError>)
        ensures
            self@.fix_points.len() == 0 <==> r is Err,
            r is Err ==> r == Err::<Point, ChaosError>(ChaosError::InvalidState),
            r matches Ok(p) ==> is_step(self@.fix_points, last_of(self@.random_points), p),
    {
        let points = self.store.points();
        let previous: Option<Point> = if points.len() == 0 {
            None
        } else {
            Some(points[points.len() - 1])
        };
        generate(self.store.vertices(), previous)
    }

    /// The answer of the canvas to an event of the host. A press of the
    /// left button within the canvas asks for a new fixed vertex under the
    /// pointer, one of the right button for the removal of the last one.
    pub fn update(&self, event: CanvasEvent, cursor: Option<Point>) -> (r: (
        Status,
        Option<Message>,
    ))
        ensures
            r == reaction(event, cursor),
    {
        let position: Point = match cursor {
            Some(position) => position,
            None => {
                return (Status::Ignored, None);
            },
        };
        match event {
            CanvasEvent::ButtonPressed(button) => {
                let message: Option<Message> = match button {
                    MouseButton::Left => Some(Message::AddFixPoint(position)),
                    MouseButton::Right => Some(Message::RemoveFixPoint),
                    _ => None,
                };
                (Status::Captured, message)
            },
            CanvasEvent::OtherMouse => (Status::Captured, None),
            CanvasEvent::Keyboard => (Status::Ignored, None),
        }
    }

    /// The drawing for a paint pass on a canvas of the given size: the
    /// cached one where there is one for this size, else a new one of the
    /// visible points and the fixed vertices, which is then cached.
    pub fn draw(&mut self, size: Size) -> (out: Vec<Primitive>)
        requires
            old(self)@.wf(),
        ensures
            out@ == drawn(old(self)@.cache, size, old(self)@.visible(), old(self)@.fix_points),
            final(self)@ == (GraphView {
                cache: Some(CachedScene { size, geometry: out@ }),
                ..old(self)@
            }),
    {
        let visible: &[Point] = slice_subrange(
            self.store.points().as_slice(),
            0,
            self.cur_iter as usize,
        );
        self.cache.draw(size, visible, self.store.vertices().as_slice())
    }

    /// Sets the number of points that should exist to `m` (to 0 for a
    /// negative `m`) and generates the points that are missing. Fails with
    /// `InvalidState`, and changes nothing, exactly when there is no fixed
    /// vertex.
    pub fn set_max_iter(&mut self, m: i32) -> (r: Result<(), ChaosError>)
        requires
            old(self)@.wf(),
        ensures
            final(self)@.wf(),
            old(self)@.fix_points.len() == 0 <==> r is Err,
            r is Err ==> r == Err::<(), ChaosError>(ChaosError::InvalidState) && final(self)@
                == old(self)@,
            r is Ok ==> old(self)@.grown_to(m as int, final(self)@),
    {
        let wanted: i32 = if m < 0 {
            0
        } else {
            m
        };
        match self.store.grow_to(wanted as usize) {
            Ok(()) => {
                self.max_iter = wanted;
                if self.cur_iter > wanted {
                    self.cur_iter = wanted;
                }
                self.cache.invalidate();
                Ok(())
            },
            Err(e) => Err(e),
        }
    }

    /// Sets the number of points that are drawn to `c`, brought into the
    /// window from 0 to `max_iter`.
    pub fn set_cur_iter(&mut self, c: i32)
        requires
            old(self)@.wf(),
        ensures
            final(self)@.wf(),
            final(self)@ == old(self)@.after(Message::SetCurIter(c)),
    {
        self.cur_iter = if c < 0 {
            0
        } else if c > self.max_iter {
            self.max_iter
        } else {
            c
        };
        self.cache.invalidate();
    }

    /// Adds a fixed vertex, drops the generated points and sets both
    /// counters to zero.
    pub fn add_fix_point(&mut self, p: Point)
        ensures
            final(self)@.wf(),
            final(self)@ == old(self)@.after(Message::AddFixPoint(p)),
    {
        self.store.add_vertex(p);
        self.max_iter = 0;
        self.cur_iter = 0;
        self.cache.invalidate();
    }

    /// Removes the last fixed vertex, if there is one, drops the generated
    /// points and sets both counters to zero.
    pub fn remove_fix_point(&mut self)
        requires
            old(self)@.wf(),
        ensures
            final(self)@.wf(),
            final(self)@ == old(self)@.after(Message::RemoveFixPoint),
    {
        let _ = self.store.remove_vertex();
        self.max_iter = 0;
        self.cur_iter = 0;
        self.cache.invalidate();
    }
}

/// The emulator: the state that the messages of the user interface change.
pub struct SierpinskiEmulator {
    graph: SierpinskiGraph,
}

impl View for SierpinskiEmulator {
    type V = GraphView;

    closed spec fn view(&self) -> GraphView {
        self.graph@
    }
}

impl SierpinskiEmulator {
    /// An emulator without vertices and points.
    pub fn new() -> (e: SierpinskiEmulator)
        ensures
            e@.wf(),
            e@ == (GraphView {
                max_iter: 0,
                cur_iter: 0,
                fix_points: Seq::empty(),
                random_points: Seq::empty(),
                bound: Size { width: 600, height: 600 },
                cache: None,
            }),
    {
        SierpinskiEmulator { graph: SierpinskiGraph::new() }
    }

    /// The canvas of the emulator.
    pub fn graph(&self) -> (g: &SierpinskiGraph)
        ensures
            g@ == self@,
    {
        &self.graph
    }

    /// Whether the sliders are shown: only while there is a fixed vertex.
    pub fn controls_visible(&self) -> (b: bool)
        ensures
            b == (self@.fix_points.len() > 0),
    {
        self.graph.fix_points().len() > 0
    }

    /// Applies a message. `SetMaxIter` fails with `InvalidState`, and
    /// changes nothing, exactly when there is no fixed vertex; no other
    /// message fails.
    pub fn update(&mut self, message: Message) -> (r: Result<(), ChaosError>)
        requires
            old(self)@.wf(),
        ensures
            final(self)@.wf(),
            r is Err <==> message is SetMaxIter && old(self)@.fix_points.len() == 0,
            r is Err ==> r == Err::<(), ChaosError>(ChaosError::InvalidState) && final(self)@
                == old(self)@,
            r is Ok ==> match message {
                Message::SetMaxIter(m) => old(self)@.grown_to(m as int, final(self)@),
                _ => final(self)@ == old(self)@.after(message),
            },
    {
        match message {
            Message::SetMaxIter(max_iter) => self.graph.set_max_iter(max_iter),
            Message::SetCurIter(cur_iter) => {
                self.graph.set_cur_iter(cur_iter);
                Ok(())
            },
            Message::DrawCurIter(cur_iter) => {
                self.graph.set_cur_iter(cur_iter);
                Ok(())
            },
            Message::AddFixPoint(point) => {
                self.graph.add_fix_point(point);
                Ok(())
            },
            Message::RemoveFixPoint => {
                self.graph.remove_fix_point();
                Ok(())
            },
        }
    }

    /// The drawing for a paint pass on a canvas of the given size.
    pub fn draw(&mut self, size: Size) -> (out: Vec<Primitive>)
        requires
            old(self)@.wf(),
        ensures
            out@ == drawn(old(self)@.cache, size, old(self)@.visible(), old(self)@.fix_points),
            final(self)@ == (GraphView {
                cache: Some(CachedScene { size, geometry: out@ }),
                ..old(self)@
            }),
    {
        self.graph.draw(size)
    }
}

} // verus!
