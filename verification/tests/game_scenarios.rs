use snake_core::game::{ConfigError, Game};
use snake_core::geometry::{Direction, Point};

#[test]
fn new_game_starts_at_center_heading_right() {
    let g = Game::new(10, 10);
    assert_eq!(g.head(), Point::new(5, 5));
    assert_eq!(g.snake_len(), 1);
    assert_eq!(g.heading(), Direction::Right);
    assert_eq!(g.food(), None);
}

#[test]
fn try_new_rejects_non_positive_width() {
    assert_eq!(Game::try_new(0, 5).err(), Some(ConfigError::NonPositiveSize));
}

#[test]
fn try_new_rejects_negative_height() {
    assert_eq!(Game::try_new(5, -1).err(), Some(ConfigError::NonPositiveSize));
}

#[test]
fn try_new_rejects_oversized_grid() {
    assert_eq!(
        Game::try_new(46341, 46341).err(),
        Some(ConfigError::GridTooLarge)
    );
}

#[test]
fn try_new_accepts_ordinary_grid() {
    let g = Game::try_new(4, 4).unwrap();
    assert_eq!(g.head(), Point::new(2, 2));
    assert_eq!(g.food(), None);
}

#[test]
fn ordinary_move_advances_head_and_keeps_food() {
    let mut g = Game::new(10, 10);
    assert!(g.set_food(Point::new(9, 9)));
    g.on_key(Direction::Up);
    g.tick();
    assert_eq!(g.body(), vec![Point::new(5, 4)]);
    assert_eq!(g.snake_len(), 1);
    assert_eq!(g.food(), Some(Point::new(9, 9)));
}

#[test]
fn boundary_freeze_leaves_snake_unchanged() {
    let mut g = Game::new(4, 4);
    g.tick();
    assert_eq!(g.head(), Point::new(3, 2));
    g.tick();
    assert_eq!(g.head(), Point::new(3, 2));
    assert_eq!(g.snake_len(), 1);
    assert_eq!(g.heading(), Direction::Right);
}

#[test]
fn eat_and_regrow_lengthens_snake_and_replaces_food() {
    let mut g = Game::new(5, 5);
    assert!(g.set_food(Point::new(3, 2)));
    g.tick();
    assert_eq!(g.snake_len(), 2);
    assert_eq!(g.head(), Point::new(3, 2));
    assert_eq!(g.body(), vec![Point::new(3, 2), Point::new(2, 2)]);
    let food = g.food().expect("a free cell remains, so food must be placed");
    assert!(!g.hit_test(&food));
    let size = g.size();
    assert!(0 <= food.x && food.x < size.w && 0 <= food.y && food.y < size.h);
}

#[test]
fn food_exclusion_holds_over_many_placements() {
    for _ in 0..500 {
        let mut g = Game::new(3, 3);
        g.init();
        let food = g.food().expect("board is not full");
        assert!(!g.hit_test(&food));
        let size = g.size();
        assert!(0 <= food.x && food.x < size.w && 0 <= food.y && food.y < size.h);
    }
}

#[test]
fn food_placement_on_tight_board_takes_the_only_free_cell() {
    // A 2 by 1 board: the snake sits at (1, 0), so (0, 0) is the only
    // candidate, whatever the random draws were.
    for _ in 0..200 {
        let mut g = Game::new(2, 1);
        assert_eq!(g.head(), Point::new(1, 0));
        g.init();
        assert_eq!(g.food(), Some(Point::new(0, 0)));
    }
}

#[test]
fn full_board_yields_no_food() {
    let mut g = Game::new(1, 1);
    g.init();
    assert_eq!(g.food(), None);
}

#[test]
fn eating_the_last_free_cell_ends_food_spawning() {
    // 1 by 2 board, head at (0, 1): eating at (0, 0) fills the board.
    let mut g = Game::new(1, 2);
    assert_eq!(g.head(), Point::new(0, 1));
    assert!(g.set_food(Point::new(0, 0)));
    g.on_key(Direction::Up);
    g.tick();
    assert_eq!(g.snake_len(), 2);
    assert_eq!(g.body(), vec![Point::new(0, 0), Point::new(0, 1)]);
    assert_eq!(g.food(), None);
}

#[test]
fn set_food_rejects_cells_off_board_or_on_snake() {
    let mut g = Game::new(5, 5);
    assert!(!g.set_food(Point::new(5, 0)));
    assert!(!g.set_food(Point::new(-1, 2)));
    assert!(!g.set_food(Point::new(2, 2)));
    assert_eq!(g.food(), None);
    assert!(g.set_food(Point::new(0, 0)));
    assert_eq!(g.food(), Some(Point::new(0, 0)));
}

#[test]
fn on_key_guards_against_instant_reversal() {
    let mut g = Game::new(8, 8);
    assert_eq!(g.heading(), Direction::Right);
    g.on_key(Direction::Left);
    assert_eq!(g.heading(), Direction::Right);
    g.on_key(Direction::Up);
    assert_eq!(g.heading(), Direction::Up);
    g.on_key(Direction::Down);
    assert_eq!(g.heading(), Direction::Up);
}

#[test]
fn init_keeps_snake_and_bounds() {
    let mut g = Game::new(6, 7);
    g.init();
    assert_eq!(g.head(), Point::new(3, 3));
    assert_eq!(g.snake_len(), 1);
    let size = g.size();
    assert_eq!((size.w, size.h), (6, 7));
}
