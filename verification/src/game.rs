//! The game: one snake, one food cell, fixed board bounds, and the
//! discrete logic tick that ties them together.

use vstd::prelude::*;
use rand::Rng;

use crate::geometry::{next_point, Direction, Point, Size};
use crate::snake::{lemma_grow_preserves_wf, lemma_step_preserves_wf, snake_wf, Snake};

verus! {

/// The single active food cell.
#[derive(Clone, Copy, PartialEq, Eq, Structural, Debug)]
pub struct Food {
    pub pos: Point,
}

impl Food {
    /// Food at `pos`.
    pub fn new(pos: Point) -> (f: Food)
        ensures
            f.pos == pos,
    {
        Food { pos }
    }
}

/// A rejected construction parameter.
#[derive(Clone, Copy, PartialEq, Eq, Structural, Debug)]
pub enum ConfigError {
    /// Width or height is zero or negative.
    NonPositiveSize,
    /// The cell count `w * h` does not fit the coordinate range.
    GridTooLarge,
}

/// Relies on rand::Rng::gen_range over rand::thread_rng: returns a value
/// drawn uniformly from the given range, and panics only when the range is
/// empty, which the precondition rules out.
#[verifier::external_body]
fn random_below(n: i32) -> (r: i32)
    requires
        1 <= n,
    ensures
        0 <= r < n,
{
    rand::thread_rng().gen_range(0..n)
}

/// Some on-board cell is not covered by the body `s`.
pub open spec fn has_free_cell(s: Seq<Point>, rect: Size) -> bool {
    exists|p: Point| #[trigger] rect.spec_contains(p) && !s.contains(p)
}

/// One game: a snake, at most one food cell, and fixed bounds.
pub struct Game {
    snake: Snake,
    food: Option<Food>,
    rect: Size,
}

impl Game {
    /// The body of the snake, head first.
    pub closed spec fn spec_snake(&self) -> Seq<Point> {
        self.snake@
    }

    /// The snake's current heading.
    pub closed spec fn spec_heading(&self) -> Direction {
        self.snake.heading()
    }

    /// The food cell, or None when no food is active (before `init`, or
    /// once the snake covers the whole board).
    pub closed spec fn spec_food(&self) -> Option<Point> {
        match self.food {
            Some(f) => Some(f.pos),
            None => None,
        }
    }

    /// The board bounds.
    pub closed spec fn spec_size(&self) -> Size {
        self.rect
    }

    /// The cell lies on the board.
    pub open spec fn spec_in_bounds(&self, p: Point) -> bool {
        self.spec_size().spec_contains(p)
    }

    /// Well-formed state: positive bounds whose cell count fits the
    /// coordinate range, a well-formed snake lying on the board, and food,
    /// when present, on the board.
    pub closed spec fn wf(&self) -> bool {
        &&& 1 <= self.rect.w
        &&& 1 <= self.rect.h
        &&& self.rect.w * self.rect.h <= i32::MAX
        &&& snake_wf(self.snake@)
        &&& (forall|i: int|
            0 <= i < self.snake@.len() ==> self.spec_in_bounds(#[trigger] self.snake@[i]))
        &&& match self.food {
            Some(f) => self.spec_in_bounds(f.pos),
            None => true,
        }
    }

    /// A game on a `w` by `h` board: a one-segment snake at the board
    /// center heading right, and no food yet (`init` places the first).
    pub fn new(w: i32, h: i32) -> (g: Game)
        requires
            1 <= w,
            1 <= h,
            w * h <= i32::MAX,
        ensures
            g.wf(),
            g.spec_size() == (Size { w, h }),
            g.spec_snake() == seq![Point { x: (w / 2) as i32, y: (h / 2) as i32 }],
            g.spec_heading() == Direction::Right,
            g.spec_food() is None,
    {
        let head = Point::new(w / 2, h / 2);
        Game { snake: Snake::new(head), food: None, rect: Size::new(w, h) }
    }

    /// Checked construction: rejects non-positive bounds and boards whose
    /// cell count does not fit the coordinate range, and otherwise builds
    /// the same state as `new`.
    pub fn try_new(w: i32, h: i32) -> (r: Result<Game, ConfigError>)
        ensures
            match r {
                Ok(g) => 1 <= w && 1 <= h && w * h <= i32::MAX && g.wf()
                    && g.spec_size() == (Size { w, h })
                    && g.spec_snake() == seq![Point { x: (w / 2) as i32, y: (h / 2) as i32 }]
                    && g.spec_heading() == Direction::Right
                    && g.spec_food() is None,
                Err(ConfigError::NonPositiveSize) => w < 1 || h < 1,
                Err(ConfigError::GridTooLarge) => 1 <= w && 1 <= h && w * h > i32::MAX,
            },
    {
        if w < 1 || h < 1 {
            return Err(ConfigError::NonPositiveSize);
        }
        proof {
            assert(1 <= (w as int) * (h as int) <= 0x7fff_ffff * 0x7fff_ffff)
                by (nonlinear_arith)
                requires
                    1 <= w <= 0x7fff_ffff,
                    1 <= h <= 0x7fff_ffff,
            ;
        }
        if (w as i64) * (h as i64) > (i32::MAX as i64) {
            return Err(ConfigError::GridTooLarge);
        }
        Ok(Game::new(w, h))
    }

    /// Rejection sampling with a bounded attempt count: draw uniform
    /// on-board cells and keep the first that misses the snake.
    fn sample_free_cell(&self) -> (r: Option<Point>)
        requires
            self.wf(),
        ensures
            match r {
                Some(p) => self.spec_in_bounds(p) && !self.spec_snake().contains(p),
                None => true,
            },
    {
        let mut attempts: u32 = 0;
        while attempts < 64
            invariant
                self.wf(),
            decreases 64 - attempts,
        {
            let x = random_below(self.rect.w);
            let y = random_below(self.rect.h);
            let p = Point::new(x, y);
            if !self.snake.hit_test(&p) {
                return Some(p);
            }
            attempts = attempts + 1;
        }
        None
    }

    /// The first board cell in row-major order that misses the snake, or
    /// None when the snake covers the whole board.
    fn first_free_cell(&self) -> (r: Option<Point>)
        requires
            self.wf(),
        ensures
            match r {
                Some(p) => self.spec_in_bounds(p) && !self.spec_snake().contains(p),
                None => forall|p: Point|
                    #[trigger] self.spec_size().spec_contains(p)
                        ==> self.spec_snake().contains(p),
            },
    {
        let mut y: i32 = 0;
        while y < self.rect.h
            invariant
                self.wf(),
                0 <= y <= self.rect.h,
                forall|p: Point|
                    #[trigger] self.spec_size().spec_contains(p) && p.y < y
                        ==> self.spec_snake().contains(p),
            decreases self.rect.h - y,
        {
            let mut x: i32 = 0;
            while x < self.rect.w
                invariant
                    self.wf(),
                    0 <= y < self.rect.h,
                    0 <= x <= self.rect.w,
                    forall|p: Point|
                        #[trigger] self.spec_size().spec_contains(p) && p.y < y
                            ==> self.spec_snake().contains(p),
                    forall|p: Point|
                        #[trigger] self.spec_size().spec_contains(p) && p.y == y && p.x < x
                            ==> self.spec_snake().contains(p),
                decreases self.rect.w - x,
            {
                let p = Point::new(x, y);
                if !self.snake.hit_test(&p) {
                    return Some(p);
                }
                x = x + 1;
            }
            y = y + 1;
        }
        None
    }

    /// Place the food on some free on-board cell: first by bounded random
    /// sampling, then, should every draw land on the snake, by a
    /// deterministic scan. Food becomes None exactly when the snake covers
    /// the whole board.
    fn place_food(&mut self)
        requires
            old(self).wf(),
        ensures
            final(self).wf(),
            final(self).spec_size() == old(self).spec_size(),
            final(self).spec_snake() == old(self).spec_snake(),
            final(self).spec_heading() == old(self).spec_heading(),
            match final(self).spec_food() {
                Some(p) => final(self).spec_in_bounds(p)
                    && !final(self).spec_snake().contains(p),
                None => true,
            },
            (final(self).spec_food() is Some)
                == has_free_cell(old(self).spec_snake(), old(self).spec_size()),
    {
        let choice = match self.sample_free_cell() {
            Some(p) => Some(p),
            None => self.first_free_cell(),
        };
        match choice {
            Some(p) => {
                self.food = Some(Food::new(p));
                proof {
                    assert(self.spec_size().spec_contains(p) && !self.spec_snake().contains(p));
                }
            },
            None => {
                proof {
                    assert(!has_free_cell(self.spec_snake(), self.spec_size()));
                }
                self.food = None;
            },
        }
    }

    /// First food placement; the rest of the state is untouched.
    pub fn init(&mut self)
        requires
            old(self).wf(),
        ensures
            final(self).wf(),
            final(self).spec_size() == old(self).spec_size(),
            final(self).spec_snake() == old(self).spec_snake(),
            final(self).spec_heading() == old(self).spec_heading(),
            match final(self).spec_food() {
                Some(p) => final(self).spec_in_bounds(p)
                    && !final(self).spec_snake().contains(p),
                None => true,
            },
            (final(self).spec_food() is Some)
                == has_free_cell(old(self).spec_snake(), old(self).spec_size()),
    {
        self.place_food()
    }

    /// Deterministic placement: put the food at `p` when `p` lies on the
    /// board and misses the snake; otherwise change nothing.
    pub fn set_food(&mut self, p: Point) -> (placed: bool)
        requires
            old(self).wf(),
        ensures
            final(self).wf(),
            final(self).spec_size() == old(self).spec_size(),
            final(self).spec_snake() == old(self).spec_snake(),
            final(self).spec_heading() == old(self).spec_heading(),
            placed == (old(self).spec_in_bounds(p) && !old(self).spec_snake().contains(p)),
            final(self).spec_food() == (if placed {
                Some(p)
            } else {
                old(self).spec_food()
            }),
    {
        if self.rect.contains(&p) && !self.snake.hit_test(&p) {
            self.food = Some(Food::new(p));
            true
        } else {
            false
        }
    }

    /// One discrete advance of the game logic: compute the cell ahead of
    /// the head; freeze if it lies off the board; grow and re-place the
    /// food if it lies on the food; otherwise step.
    pub fn tick(&mut self)
        requires
            old(self).wf(),
        ensures
            final(self).wf(),
            final(self).spec_size() == old(self).spec_size(),
            final(self).spec_heading() == old(self).spec_heading(),
            ({
                let next = next_point(old(self).spec_snake()[0], old(self).spec_heading());
                if !old(self).spec_in_bounds(next) {
                    final(self).spec_snake() == old(self).spec_snake()
                        && final(self).spec_food() == old(self).spec_food()
                } else if old(self).spec_food() == Some(next) {
                    final(self).spec_snake() == seq![next] + old(self).spec_snake()
                        && (match final(self).spec_food() {
                        Some(p) => final(self).spec_in_bounds(p)
                            && !final(self).spec_snake().contains(p),
                        None => true,
                    })
                        && ((final(self).spec_food() is Some)
                            == has_free_cell(
                            seq![next] + old(self).spec_snake(),
                            old(self).spec_size(),
                        ))
                } else {
                    final(self).spec_snake() == seq![next] + old(self).spec_snake().drop_last()
                        && final(self).spec_food() == old(self).spec_food()
                }
            }),
    {
        let next = self.snake.next_head();
        if !self.rect.contains(&next) {
            return;
        }
        let eats = match &self.food {
            Some(f) => f.pos.is_same(&next),
            None => false,
        };
        if eats {
            self.snake.grow(next);
            proof {
                lemma_grow_preserves_wf(old(self).spec_snake(), next);
            }
            self.place_food();
        } else {
            self.snake.step(next);
            proof {
                lemma_step_preserves_wf(old(self).spec_snake(), next);
            }
        }
    }

    /// Forward a direction command to the snake: the heading changes unless
    /// the command is the exact opposite of the current heading. Takes
    /// effect on the next tick; body, food and bounds are untouched.
    pub fn on_key(&mut self, cmd: Direction)
        requires
            old(self).wf(),
        ensures
            final(self).wf(),
            final(self).spec_size() == old(self).spec_size(),
            final(self).spec_snake() == old(self).spec_snake(),
            final(self).spec_food() == old(self).spec_food(),
            final(self).spec_heading() == (if cmd == old(self).spec_heading().spec_opposite() {
                old(self).spec_heading()
            } else {
                cmd
            }),
    {
        self.snake.set_direction(cmd);
    }

    /// The food cell, or None when no food is active.
    pub fn food(&self) -> (r: Option<Point>)
        ensures
            r == self.spec_food(),
    {
        match &self.food {
            Some(f) => Some(f.pos),
            None => None,
        }
    }

    /// The head cell.
    pub fn head(&self) -> (p: Point)
        requires
            self.wf(),
        ensures
            p == self.spec_snake()[0],
    {
        self.snake.head()
    }

    /// Number of body segments.
    pub fn snake_len(&self) -> (n: usize)
        ensures
            n == self.spec_snake().len(),
    {
        self.snake.len()
    }

    /// The body segments, head first.
    pub fn body(&self) -> (v: Vec<Point>)
        ensures
            v@ == self.spec_snake(),
    {
        self.snake.segments()
    }

    /// The current heading.
    pub fn heading(&self) -> (d: Direction)
        ensures
            d == self.spec_heading(),
    {
        self.snake.direction()
    }

    /// The board bounds.
    pub fn size(&self) -> (s: Size)
        ensures
            s == self.spec_size(),
    {
        self.rect
    }

    /// True iff `p` coincides with some body segment.
    pub fn hit_test(&self, p: &Point) -> (r: bool)
        ensures
            r == self.spec_snake().contains(*p),
    {
        self.snake.hit_test(p)
    }
}

} // verus!
