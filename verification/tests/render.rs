use sierpinski::animation::{AnimationDriver, REFRESH_PERIOD};
use sierpinski::config::Config;
use sierpinski::point::Point;
use sierpinski::render::{
    build_scene, Color, Primitive, RenderCache, Size, MARKER_SIDE, VERTEX_RADIUS,
};

const SMALL: Size = Size { width: 400, height: 400 };
const LARGE: Size = Size { width: 600, height: 600 };

fn driver(max_points: usize) -> AnimationDriver {
    AnimationDriver::new(Point::new(200, 0), Point::new(0, 400), Point::new(400, 400), max_points)
}

#[test]
fn scene_of_nothing_is_the_border() {
    let g = build_scene(SMALL, &[], &[]);
    assert_eq!(g, vec![Primitive::StrokedRectangle { origin: Point::new(0, 0), size: SMALL }]);
}

#[test]
fn scene_lists_border_markers_and_vertices() {
    let g = build_scene(LARGE, &[Point::new(5, 6)], &[Point::new(7, 8), Point::new(9, 10)]);
    let blue = Color { r: 18, g: 147, b: 216 };
    assert_eq!(MARKER_SIDE, 1);
    assert_eq!(VERTEX_RADIUS, 5);
    assert_eq!(
        g,
        vec![
            Primitive::StrokedRectangle { origin: Point::new(0, 0), size: LARGE },
            Primitive::StrokedRectangle {
                origin: Point::new(5, 6),
                size: Size { width: 1, height: 1 }
            },
            Primitive::FilledCircle { center: Point::new(7, 8), radius: 5, color: blue },
            Primitive::FilledCircle { center: Point::new(9, 10), radius: 5, color: blue },
        ]
    );
}

#[test]
fn cache_returns_the_same_drawing_until_invalidated() {
    let mut cache = RenderCache::new();
    assert!(cache.is_dirty());
    let first = cache.draw(SMALL, &[Point::new(1, 1)], &[Point::new(2, 2)]);
    assert!(!cache.is_dirty());
    assert_eq!(first.len(), 3);
    let second = cache.draw(SMALL, &[Point::new(1, 1)], &[Point::new(2, 2)]);
    assert_eq!(first, second);
    let stale = cache.draw(SMALL, &[Point::new(1, 1), Point::new(3, 3)], &[]);
    assert_eq!(first, stale);
    cache.invalidate();
    assert!(cache.is_dirty());
    let fresh = cache.draw(SMALL, &[Point::new(1, 1), Point::new(3, 3)], &[]);
    assert_eq!(fresh, build_scene(SMALL, &[Point::new(1, 1), Point::new(3, 3)], &[]));
    assert_ne!(fresh, first);
}

#[test]
fn cache_rebuilds_for_another_canvas_size() {
    let mut cache = RenderCache::new();
    let small = cache.draw(SMALL, &[], &[Point::new(2, 2)]);
    let large = cache.draw(LARGE, &[Point::new(4, 4)], &[Point::new(2, 2)]);
    assert_eq!(small.len(), 2);
    assert_eq!(large, build_scene(LARGE, &[Point::new(4, 4)], &[Point::new(2, 2)]));
    assert_eq!(cache.draw(LARGE, &[], &[]), large);
}

#[test]
fn config_holds_the_constants_of_both_applications() {
    let a = Config::interactive();
    assert_eq!((a.canvas_width, a.canvas_height), (600, 600));
    assert_eq!(a.max_slider_value, 10000);
    assert_eq!(a.canvas_size(), LARGE);
    let b = Config::animated();
    assert_eq!((b.canvas_width, b.canvas_height), (400, 400));
    assert_eq!(b.tick_interval_ms, 50);
    assert_eq!(b.canvas_size(), SMALL);
}

#[test]
fn tick_appends_one_point() {
    let mut d = driver(1000);
    assert_eq!(d.ticks(), 0);
    assert_eq!(d.vertices().len(), 3);
    let p = d.tick().unwrap();
    assert_eq!(d.ticks(), 1);
    assert_eq!(d.points(), &vec![p]);
    let first = Point::new(200, 0);
    assert!(d.vertices().iter().any(|v| v.midpoint(first) == p));
    let q = d.tick().unwrap();
    assert_eq!(d.points(), &vec![p, q]);
    assert!(d.vertices().iter().any(|v| v.midpoint(p) == q));
}

#[test]
fn tick_with_follows_the_choice() {
    let mut d = driver(1000);
    assert_eq!(d.tick_with(1), Some(Point::new(100, 200)));
    assert_eq!(d.tick_with(2), Some(Point::new(250, 300)));
    assert_eq!(d.tick_with(0), Some(Point::new(225, 150)));
    assert_eq!(d.tick_with(3), None);
    assert_eq!(d.ticks(), 3);
}

#[test]
fn tick_stops_at_the_limit() {
    let mut d = driver(2);
    assert!(d.tick().is_some());
    assert!(d.tick().is_some());
    assert_eq!(d.tick(), None);
    assert_eq!(d.tick_with(0), None);
    assert_eq!(d.ticks(), 2);
    let mut none = driver(0);
    assert_eq!(none.tick(), None);
    assert_eq!(none.ticks(), 0);
}

#[test]
fn drawing_is_refreshed_every_hundred_ticks() {
    assert_eq!(REFRESH_PERIOD, 100);
    let mut d = driver(1000);
    let empty = d.draw(SMALL);
    assert_eq!(empty.len(), 4);
    for _ in 0..99 {
        assert!(d.tick().is_some());
        assert_eq!(d.draw(SMALL), empty);
    }
    assert!(d.tick().is_some());
    let hundred = d.draw(SMALL);
    assert_eq!(hundred.len(), 104);
    assert_eq!(hundred, build_scene(SMALL, d.points(), d.vertices()));
    for _ in 0..99 {
        assert!(d.tick_with(1).is_some());
        assert_eq!(d.draw(SMALL), hundred);
    }
    assert!(d.tick_with(1).is_some());
    assert_eq!(d.draw(SMALL).len(), 204);
}
