use snake_core::game::{Food, Game};
use snake_core::geometry::{Direction, Point, Size};
use snake_core::input::InputQueue;
use snake_core::render::{Color, DrawCmd, RecordingRenderer, Renderer};
use snake_core::snake::Snake;
use snake_core::timing::FixedTimestep;

#[test]
fn point_equality_and_is_same() {
    let a = Point::new(3, -2);
    let b = Point::new(3, -2);
    let c = Point::new(3, 2);
    assert!(a.is_same(&b));
    assert!(!a.is_same(&c));
    assert_eq!(a, b);
    assert_ne!(a, c);
}

#[test]
fn size_and_food_constructors() {
    let s = Size::new(4, 7);
    assert_eq!((s.w, s.h), (4, 7));
    let f = Food::new(Point::new(1, 2));
    assert_eq!(f.pos, Point::new(1, 2));
}

#[test]
fn snake_next_head_follows_heading() {
    let mut s = Snake::new(Point::new(5, 5));
    assert_eq!(s.next_head(), Point::new(6, 5));
    s.set_direction(Direction::Up);
    assert_eq!(s.next_head(), Point::new(5, 4));
    s.set_direction(Direction::Left);
    assert_eq!(s.next_head(), Point::new(4, 5));
    s.set_direction(Direction::Down);
    assert_eq!(s.next_head(), Point::new(5, 6));
}

#[test]
fn snake_grow_keeps_all_prior_segments() {
    let mut s = Snake::new(Point::new(2, 2));
    s.grow(Point::new(3, 2));
    assert_eq!(s.len(), 2);
    assert_eq!(s.segments(), vec![Point::new(3, 2), Point::new(2, 2)]);
    s.grow(Point::new(3, 3));
    assert_eq!(s.len(), 3);
    assert_eq!(
        s.segments(),
        vec![Point::new(3, 3), Point::new(3, 2), Point::new(2, 2)]
    );
}

#[test]
fn snake_step_prepends_head_and_drops_tail() {
    let mut s = Snake::new(Point::new(2, 2));
    s.grow(Point::new(3, 2));
    s.step(Point::new(4, 2));
    assert_eq!(s.len(), 2);
    assert_eq!(s.segments(), vec![Point::new(4, 2), Point::new(3, 2)]);
}

#[test]
fn snake_hit_test_finds_every_segment() {
    let mut s = Snake::new(Point::new(2, 2));
    s.grow(Point::new(3, 2));
    assert!(s.hit_test(&Point::new(2, 2)));
    assert!(s.hit_test(&Point::new(3, 2)));
    assert!(!s.hit_test(&Point::new(9, 9)));
}

#[test]
fn snake_reversal_guard_per_heading() {
    let mut s = Snake::new(Point::new(0, 0));
    assert_eq!(s.direction(), Direction::Right);
    s.set_direction(Direction::Left);
    assert_eq!(s.direction(), Direction::Right);
    s.set_direction(Direction::Up);
    assert_eq!(s.direction(), Direction::Up);
    s.set_direction(Direction::Down);
    assert_eq!(s.direction(), Direction::Up);
    s.set_direction(Direction::Right);
    assert_eq!(s.direction(), Direction::Right);
}

#[test]
fn direction_opposites() {
    assert_eq!(Direction::Up.opposite(), Direction::Down);
    assert_eq!(Direction::Down.opposite(), Direction::Up);
    assert_eq!(Direction::Left.opposite(), Direction::Right);
    assert_eq!(Direction::Right.opposite(), Direction::Left);
}

#[test]
fn input_queue_is_fifo_and_bounded() {
    let mut q = InputQueue::new(2);
    assert_eq!(q.len(), 0);
    assert!(q.push(Direction::Up));
    assert!(q.push(Direction::Left));
    assert!(!q.push(Direction::Down));
    assert_eq!(q.len(), 2);
    assert_eq!(q.pop(), Some(Direction::Up));
    assert_eq!(q.pop(), Some(Direction::Left));
    assert_eq!(q.pop(), None);
}

#[test]
fn input_queue_drain_applies_reversal_guard_in_order() {
    let mut g = Game::new(8, 8);
    let mut q = InputQueue::new(8);
    q.push(Direction::Left);
    q.push(Direction::Up);
    q.push(Direction::Left);
    q.drain_apply(&mut g);
    assert_eq!(g.heading(), Direction::Left);
    assert_eq!(q.len(), 0);
    assert_eq!(g.snake_len(), 1);
}

#[test]
fn fixed_timestep_fires_each_cadence_on_time() {
    let mut t = FixedTimestep::new(100, 30);
    assert_eq!(t.advance(10), (false, false));
    assert_eq!(t.advance(25), (false, true));
    assert_eq!(t.advance(65), (true, true));
    assert_eq!(t.advance(99), (false, true));
    assert_eq!(t.advance(1), (true, false));
}

#[test]
fn recording_renderer_keeps_draw_calls_in_order() {
    let mut r = RecordingRenderer::new();
    let green = Color { r: 0, g: 255, b: 0, a: 255 };
    let red = Color { r: 255, g: 0, b: 0, a: 255 };
    r.draw_points(&vec![Point::new(1, 1), Point::new(2, 1)], green);
    r.draw_points(&vec![Point::new(5, 5)], red);
    assert_eq!(
        r.calls().clone(),
        vec![
            DrawCmd { point: Point::new(1, 1), color: green },
            DrawCmd { point: Point::new(2, 1), color: green },
            DrawCmd { point: Point::new(5, 5), color: red },
        ]
    );
    r.clear();
    assert!(r.calls().is_empty());
}

#[test]
fn game_render_draws_body_then_food() {
    let mut g = Game::new(5, 5);
    assert!(g.set_food(Point::new(3, 2)));
    let mut r = RecordingRenderer::new();
    g.render(&mut r);
    let body_color = Color { r: 32, g: 200, b: 32, a: 255 };
    let food_color = Color { r: 200, g: 32, b: 32, a: 255 };
    assert_eq!(
        r.calls().clone(),
        vec![
            DrawCmd { point: Point::new(2, 2), color: body_color },
            DrawCmd { point: Point::new(3, 2), color: food_color },
        ]
    );
}

#[test]
fn game_render_without_food_draws_only_body() {
    let g = Game::new(5, 5);
    let mut r = RecordingRenderer::new();
    g.render(&mut r);
    assert_eq!(
        r.calls().clone(),
        vec![DrawCmd { point: Point::new(2, 2), color: Color { r: 32, g: 200, b: 32, a: 255 } }]
    );
}
