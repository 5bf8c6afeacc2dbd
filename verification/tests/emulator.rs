use sierpinski::emulator::{
    CanvasEvent, Message, MouseButton, SierpinskiEmulator, SierpinskiGraph, Status,
};
use sierpinski::generator::ChaosError;
use sierpinski::point::Point;
use sierpinski::render::{Color, Primitive, Size};

const CANVAS: Size = Size { width: 600, height: 600 };

fn with_triangle() -> SierpinskiEmulator {
    let mut e = SierpinskiEmulator::new();
    assert_eq!(e.update(Message::AddFixPoint(Point::new(100, 100))), Ok(()));
    assert_eq!(e.update(Message::AddFixPoint(Point::new(0, 0))), Ok(()));
    assert_eq!(e.update(Message::AddFixPoint(Point::new(200, 0))), Ok(()));
    e
}

#[test]
fn new_emulator_is_empty() {
    let e = SierpinskiEmulator::new();
    assert_eq!(e.graph().max_iter(), 0);
    assert_eq!(e.graph().cur_iter(), 0);
    assert_eq!(e.graph().fix_points().len(), 0);
    assert_eq!(e.graph().random_points().len(), 0);
    assert_eq!(e.graph().bound(), CANVAS);
    assert!(!e.controls_visible());
}

#[test]
fn controls_show_once_a_vertex_exists() {
    let mut e = SierpinskiEmulator::new();
    assert_eq!(e.update(Message::AddFixPoint(Point::new(3, 4))), Ok(()));
    assert!(e.controls_visible());
    assert_eq!(e.update(Message::RemoveFixPoint), Ok(()));
    assert!(!e.controls_visible());
}

#[test]
fn set_max_iter_generates_the_missing_points() {
    let mut e = with_triangle();
    assert_eq!(e.update(Message::SetMaxIter(5)), Ok(()));
    assert_eq!(e.graph().max_iter(), 5);
    assert_eq!(e.graph().random_points().len(), 5);
    assert_eq!(e.graph().cur_iter(), 0);
    let kept = e.graph().random_points().clone();
    assert_eq!(e.update(Message::SetMaxIter(2)), Ok(()));
    assert_eq!(e.graph().max_iter(), 2);
    assert_eq!(e.graph().random_points(), &kept);
}

#[test]
fn set_max_iter_without_vertices_is_refused() {
    let mut e = SierpinskiEmulator::new();
    assert_eq!(e.update(Message::SetMaxIter(5)), Err(ChaosError::InvalidState));
    assert_eq!(e.graph().max_iter(), 0);
    assert_eq!(e.graph().random_points().len(), 0);
}

#[test]
fn negative_max_iter_counts_as_zero() {
    let mut e = with_triangle();
    assert_eq!(e.update(Message::SetMaxIter(4)), Ok(()));
    assert_eq!(e.update(Message::SetCurIter(3)), Ok(()));
    assert_eq!(e.update(Message::SetMaxIter(-8)), Ok(()));
    assert_eq!(e.graph().max_iter(), 0);
    assert_eq!(e.graph().cur_iter(), 0);
    assert_eq!(e.graph().random_points().len(), 4);
}

#[test]
fn cur_iter_is_clamped_to_the_window() {
    let mut e = with_triangle();
    assert_eq!(e.update(Message::SetMaxIter(10)), Ok(()));
    assert_eq!(e.update(Message::SetCurIter(4)), Ok(()));
    assert_eq!(e.graph().cur_iter(), 4);
    assert_eq!(e.update(Message::SetCurIter(11)), Ok(()));
    assert_eq!(e.graph().cur_iter(), 10);
    assert_eq!(e.update(Message::SetCurIter(i32::MAX)), Ok(()));
    assert_eq!(e.graph().cur_iter(), 10);
    assert_eq!(e.update(Message::SetCurIter(-1)), Ok(()));
    assert_eq!(e.graph().cur_iter(), 0);
    assert_eq!(e.update(Message::DrawCurIter(7)), Ok(()));
    assert_eq!(e.graph().cur_iter(), 7);
    assert_eq!(e.update(Message::DrawCurIter(70)), Ok(()));
    assert_eq!(e.graph().cur_iter(), 10);
}

#[test]
fn lowering_max_iter_keeps_the_window() {
    let mut e = with_triangle();
    assert_eq!(e.update(Message::SetMaxIter(10)), Ok(()));
    assert_eq!(e.update(Message::SetCurIter(8)), Ok(()));
    assert_eq!(e.update(Message::SetMaxIter(6)), Ok(()));
    assert_eq!(e.graph().cur_iter(), 6);
    assert_eq!(e.graph().max_iter(), 6);
    assert_eq!(e.graph().random_points().len(), 10);
    assert_eq!(e.graph().visible_points().len(), 6);
}

#[test]
fn vertex_changes_reset_points_and_counters() {
    let mut e = with_triangle();
    assert_eq!(e.update(Message::SetMaxIter(10)), Ok(()));
    assert_eq!(e.update(Message::SetCurIter(8)), Ok(()));
    assert_eq!(e.update(Message::AddFixPoint(Point::new(9, 9))), Ok(()));
    assert_eq!(e.graph().random_points().len(), 0);
    assert_eq!(e.graph().max_iter(), 0);
    assert_eq!(e.graph().cur_iter(), 0);
    assert_eq!(e.graph().fix_points().len(), 4);
    assert_eq!(e.update(Message::SetMaxIter(10)), Ok(()));
    assert_eq!(e.update(Message::SetCurIter(8)), Ok(()));
    assert_eq!(e.update(Message::RemoveFixPoint), Ok(()));
    assert_eq!(e.graph().random_points().len(), 0);
    assert_eq!(e.graph().max_iter(), 0);
    assert_eq!(e.graph().cur_iter(), 0);
    assert_eq!(
        e.graph().fix_points(),
        &vec![Point::new(100, 100), Point::new(0, 0), Point::new(200, 0)]
    );
}

#[test]
fn remove_on_an_empty_emulator_changes_nothing() {
    let mut e = SierpinskiEmulator::new();
    assert_eq!(e.update(Message::RemoveFixPoint), Ok(()));
    assert_eq!(e.graph().fix_points().len(), 0);
    assert_eq!(e.graph().random_points().len(), 0);
    assert_eq!(e.graph().max_iter(), 0);
    assert_eq!(e.graph().cur_iter(), 0);
}

#[test]
fn gen_rand_point_does_not_store_the_point() {
    let mut e = with_triangle();
    let p = e.graph().gen_rand_point().unwrap();
    let allowed = [Point::new(100, 100), Point::new(50, 50), Point::new(150, 50)];
    assert!(allowed.contains(&p));
    assert_eq!(e.graph().random_points().len(), 0);
    assert_eq!(e.update(Message::RemoveFixPoint), Ok(()));
    assert_eq!(e.update(Message::RemoveFixPoint), Ok(()));
    assert_eq!(e.update(Message::RemoveFixPoint), Ok(()));
    assert_eq!(e.graph().gen_rand_point(), Err(ChaosError::InvalidState));
}

#[test]
fn clicks_inside_the_canvas_become_messages() {
    let g = SierpinskiGraph::new();
    let at = Some(Point::new(12, 34));
    assert_eq!(
        g.update(CanvasEvent::ButtonPressed(MouseButton::Left), at),
        (Status::Captured, Some(Message::AddFixPoint(Point::new(12, 34))))
    );
    assert_eq!(
        g.update(CanvasEvent::ButtonPressed(MouseButton::Right), at),
        (Status::Captured, Some(Message::RemoveFixPoint))
    );
    assert_eq!(
        g.update(CanvasEvent::ButtonPressed(MouseButton::Middle), at),
        (Status::Captured, None)
    );
    assert_eq!(
        g.update(CanvasEvent::ButtonPressed(MouseButton::Other), at),
        (Status::Captured, None)
    );
    assert_eq!(g.update(CanvasEvent::OtherMouse, at), (Status::Captured, None));
    assert_eq!(g.update(CanvasEvent::Keyboard, at), (Status::Ignored, None));
}

#[test]
fn clicks_outside_the_canvas_are_ignored() {
    let g = SierpinskiGraph::new();
    assert_eq!(
        g.update(CanvasEvent::ButtonPressed(MouseButton::Left), None),
        (Status::Ignored, None)
    );
    assert_eq!(
        g.update(CanvasEvent::ButtonPressed(MouseButton::Right), None),
        (Status::Ignored, None)
    );
    assert_eq!(g.update(CanvasEvent::OtherMouse, None), (Status::Ignored, None));
}

#[test]
fn draw_shows_the_visible_points_and_the_vertices() {
    let mut e = with_triangle();
    assert_eq!(e.update(Message::SetMaxIter(6)), Ok(()));
    assert_eq!(e.update(Message::SetCurIter(2)), Ok(()));
    let pts = e.graph().random_points().clone();
    let g = e.draw(CANVAS);
    let blue = Color { r: 0x12, g: 0x93, b: 0xD8 };
    let one = Size { width: 1, height: 1 };
    assert_eq!(
        g,
        vec![
            Primitive::StrokedRectangle { origin: Point::new(0, 0), size: CANVAS },
            Primitive::StrokedRectangle { origin: pts[0], size: one },
            Primitive::StrokedRectangle { origin: pts[1], size: one },
            Primitive::FilledCircle { center: Point::new(100, 100), radius: 5, color: blue },
            Primitive::FilledCircle { center: Point::new(0, 0), radius: 5, color: blue },
            Primitive::FilledCircle { center: Point::new(200, 0), radius: 5, color: blue },
        ]
    );
}

#[test]
fn every_message_refreshes_the_drawing() {
    let mut e = with_triangle();
    assert_eq!(e.update(Message::SetMaxIter(6)), Ok(()));
    let a = e.draw(CANVAS);
    assert_eq!(a.len(), 4);
    assert_eq!(e.draw(CANVAS), a);
    assert_eq!(e.update(Message::SetCurIter(6)), Ok(()));
    let b = e.draw(CANVAS);
    assert_eq!(b.len(), 10);
    assert_eq!(e.update(Message::RemoveFixPoint), Ok(()));
    let c = e.draw(CANVAS);
    assert_eq!(c.len(), 3);
}

#[test]
fn redraw_drops_the_cached_drawing() {
    let mut g = SierpinskiGraph::with_bound(Size { width: 10, height: 20 });
    assert_eq!(g.bound(), Size { width: 10, height: 20 });
    g.add_fix_point(Point::new(1, 2));
    let a = g.draw(CANVAS);
    g.redraw();
    let b = g.draw(CANVAS);
    assert_eq!(a, b);
    assert_eq!(g.set_max_iter(3), Ok(()));
    g.set_cur_iter(3);
    assert_eq!(g.draw(CANVAS).len(), 5);
    g.remove_fix_point();
    assert_eq!(g.draw(CANVAS).len(), 1);
}
