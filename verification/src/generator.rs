//! One step of the chaos game: jump halfway from the current point towards
//! a fixed vertex chosen at random.

use rand::Rng;
use vstd::prelude::*;
use crate::point::{midpoint, Point};

verus! {

/// Why an operation of the chaos game was refused.
#[derive(Clone, Copy, Debug, PartialEq, Eq, Structural)]
pub enum ChaosError {
    /// A point was asked for while there is no fixed vertex.
    InvalidState,
    /// A vertex was to be removed while there is none.
    EmptyCollection,
    /// The chosen index names no fixed vertex.
    ChoiceOutOfRange,
}

/// The point a step starts from: the previous point, or the first fixed
/// vertex where there is none yet.
pub open spec fn base_point(vertices: Seq<Point>, previous: Option<Point>) -> Point {
    match previous {
        Some(p) => p,
        None => vertices[0],
    }
}

/// The point generated by jumping towards the vertex at index `choice`.
pub open spec fn step(vertices: Seq<Point>, previous: Option<Point>, choice: int) -> Point {
    midpoint(vertices[choice], base_point(vertices, previous))
}

/// `p` is the result of a step towards some fixed vertex.
pub open spec fn is_step(vertices: Seq<Point>, previous: Option<Point>, p: Point) -> bool {
    exists|k: int| 0 <= k < vertices.len() && p == #[trigger] step(vertices, previous, k)
}

/// What a step with a given choice returns, errors included.
pub open spec fn step_result(vertices: Seq<Point>, previous: Option<Point>, choice: int) -> Result<
    Point,
    ChaosError,
> {
    if vertices.len() == 0 {
        Err(ChaosError::InvalidState)
    } else if !(0 <= choice < vertices.len()) {
        Err(ChaosError::ChoiceOutOfRange)
    } else {
        Ok(step(vertices, previous, choice))
    }
}

/// The step towards the vertex at index `choice`.
pub fn generate_at(vertices: &Vec<Point>, previous: Option<Point>, choice: usize) -> (r: Result<
    Point,
    ChaosError,
>)
    ensures
        r == step_result(vertices@, previous, choice as int),
{
    if vertices.len() == 0 {
        return Err(ChaosError::InvalidState);
    }
    if choice >= vertices.len() {
        return Err(ChaosError::ChoiceOutOfRange);
    }
    let target: Point = vertices[choice];
    let base: Point = match previous {
        Some(p) => p,
        None => vertices[0],
    };
    Ok(target.midpoint(base))
}

/// Calls `rand::Rng::gen_range` with the range `0..len` on the generator
/// that `rand::thread_rng` hands out. The range must not be empty, or the
/// call panics; the value returned lies in the range, and nothing more is
/// claimed of it.
#[verifier::external_body]
pub(crate) fn random_index(len: usize) -> (i: usize)
    requires
        len > 0,
    ensures
        i < len,
{
    rand::thread_rng().gen_range(0..len)
}

/// A step towards a fixed vertex chosen at random. Fails with
/// `InvalidState` exactly when there is no fixed vertex.
pub fn generate(vertices: &Vec<Point>, previous: Option<Point>) -> (r: Result<Point, ChaosError>)
    ensures
        vertices.len() == 0 <==> r is Err,
        r is Err ==> r == Err::<Point, ChaosError>(ChaosError::InvalidState),
        r matches Ok(p) ==> is_step(vertices@, previous, p),
{
    if vertices.len() == 0 {
        return Err(ChaosError::InvalidState);
    }
    let choice: usize = random_index(vertices.len());
    generate_at(vertices, previous, choice)
}

} // verus!
