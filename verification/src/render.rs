//! The drawing primitives of a scene, and a cache that rebuilds them only
//! after an invalidation or a change of the canvas size.

use vstd::prelude::*;
use vstd::slice::slice_to_vec;
use crate::point::Point;

verus! {

/// The side of the square that marks a generated point.
pub const MARKER_SIDE: u32 = 1;

/// The radius of the disc that marks a fixed vertex.
pub const VERTEX_RADIUS: u32 = 5;

/// The extent of a canvas or of a rectangle, in canvas units.
#[derive(Clone, Copy, Debug, PartialEq, Eq, Structural)]
pub struct Size {
    pub width: u32,
    pub height: u32,
}

/// An opaque colour with eight bits for each channel.
#[derive(Clone, Copy, Debug, PartialEq, Eq, Structural)]
pub struct Color {
    pub r: u8,
    pub g: u8,
    pub b: u8,
}

/// One drawing command for the host renderer.
#[derive(Clone, Copy, Debug, PartialEq, Eq, Structural)]
pub enum Primitive {
    /// The outline of a rectangle whose top left corner is `origin`.
    StrokedRectangle { origin: Point, size: Size },
    /// A disc filled with `color`.
    FilledCircle { center: Point, radius: u32, color: Color },
}

/// The colour of the fixed vertices.
pub open spec fn vertex_color() -> Color {
    Color { r: 0x12, g: 0x93, b: 0xD8 }
}

/// The outline of the whole canvas.
pub open spec fn border(size: Size) -> Primitive {
    Primitive::StrokedRectangle { origin: Point { x: 0, y: 0 }, size }
}

/// The mark of a generated point.
pub open spec fn marker(p: Point) -> Primitive {
    Primitive::StrokedRectangle {
        origin: p,
        size: Size { width: MARKER_SIDE, height: MARKER_SIDE },
    }
}

/// The mark of a fixed vertex.
pub open spec fn vertex_dot(p: Point) -> Primitive {
    Primitive::FilledCircle { center: p, radius: VERTEX_RADIUS, color: vertex_color() }
}

/// The whole drawing: the border, then a marker for each visible point,
/// then a disc for each fixed vertex.
pub open spec fn scene(size: Size, visible: Seq<Point>, vertices: Seq<Point>) -> Seq<Primitive> {
    seq![border(size)] + visible.map_values(|p: Point| marker(p)) + vertices.map_values(
        |p: Point| vertex_dot(p),
    )
}

/// Builds the drawing of the given points on a canvas of the given size.
pub fn build_scene(size: Size, visible: &[Point], vertices: &[Point]) -> (out: Vec<Primitive>)
    ensures
        out@ == scene(size, visible@, vertices@),
{
    let mut out: Vec<Primitive> = Vec::new();
    out.push(Primitive::StrokedRectangle { origin: Point { x: 0, y: 0 }, size });
    let mut i: usize = 0;
    while i < visible.len()
        invariant
            i <= visible@.len(),
            out@ == seq![border(size)] + visible@.take(i as int).map_values(
                |p: Point| marker(p),
            ),
        decreases visible@.len() - i,
    {
        out.push(
            Primitive::StrokedRectangle {
                origin: visible[i],
                size: Size { width: MARKER_SIDE, height: MARKER_SIDE },
            },
        );
        i += 1;
        assert(out@ =~= seq![border(size)] + visible@.take(i as int).map_values(
            |p: Point| marker(p),
        ));
    }
    assert(visible@.take(i as int) =~= visible@);
    let ghost marked = out@;
    let mut j: usize = 0;
    while j < vertices.len()
        invariant
            j <= vertices@.len(),
            out@ == marked + vertices@.take(j as int).map_values(|p: Point| vertex_dot(p)),
        decreases vertices@.len() - j,
    {
        out.push(
            Primitive::FilledCircle {
                center: vertices[j],
                radius: VERTEX_RADIUS,
                color: Color { r: 0x12, g: 0x93, b: 0xD8 },
            },
        );
        j += 1;
        assert(out@ =~= marked + vertices@.take(j as int).map_values(|p: Point| vertex_dot(p)));
    }
    assert(vertices@.take(j as int) =~= vertices@);
    out
}

/// A drawing kept for a canvas size.
pub struct CachedScene {
    pub size: Size,
    pub geometry: Seq<Primitive>,
}

/// What a draw call returns for a cache in state `cached`: the kept drawing
/// where there is one for this canvas size, else a new one.
pub open spec fn drawn(
    cached: Option<CachedScene>,
    size: Size,
    visible: Seq<Point>,
    vertices: Seq<Point>,
) -> Seq<Primitive> {
    match cached {
        Some(kept) if kept.size == size => kept.geometry,
        _ => scene(size, visible, vertices),
    }
}

/// The drawing of the last paint pass, kept until it is invalidated.
pub struct RenderCache {
    valid: bool,
    size: Size,
    geometry: Vec<Primitive>,
}

impl View for RenderCache {
    type V = Option<CachedScene>;

    closed spec fn view(&self) -> Option<CachedScene> {
        if self.valid {
            Some(CachedScene { size: self.size, geometry: self.geometry@ })
        } else {
            None
        }
    }
}

impl RenderCache {
    /// A cache that holds nothing.
    pub fn new() -> (c: RenderCache)
        ensures
            c@ is None,
    {
        RenderCache { valid: false, size: Size { width: 0, height: 0 }, geometry: Vec::new() }
    }

    /// Whether the next draw call rebuilds the drawing whatever the size.
    pub fn is_dirty(&self) -> (b: bool)
        ensures
            b == (self@ is None),
    {
        !self.valid
    }

    /// Drops the kept drawing.
    pub fn invalidate(&mut self)
        ensures
            final(self)@ is None,
    {
        self.valid = false;
        self.geometry.clear();
    }

    /// The drawing for a paint pass. The kept drawing is returned where
    /// there is one for this canvas size; else the drawing is built from
    /// the arguments and kept.
    pub fn draw(&mut self, size: Size, visible: &[Point], vertices: &[Point]) -> (out: Vec<
        Primitive,
    >)
        ensures
            out@ == drawn(old(self)@, size, visible@, vertices@),
            final(self)@ == Some(CachedScene { size, geometry: out@ }),
    {
        if !self.valid || self.size != size {
            self.geometry = build_scene(size, visible, vertices);
            self.size = size;
            self.valid = true;
        }
        slice_to_vec(self.geometry.as_slice())
    }
}

} // verus!
