//! The snake: an ordered body of grid cells, head first, and a heading.

use vstd::prelude::*;
use std::collections::VecDeque;

use crate::geometry::{adjacent, next_point, Direction, Point};

verus! {

/// Consecutive body segments are grid-adjacent.
pub open spec fn chain_adjacent(s: Seq<Point>) -> bool {
    forall|i: int| 0 <= i < s.len() - 1 ==> adjacent(#[trigger] s[i], s[i + 1])
}

/// No two segments occupy the same cell.
pub open spec fn distinct_cells(s: Seq<Point>) -> bool {
    forall|i: int, j: int| 0 <= i < j < s.len() ==> s[i] != s[j]
}

/// A well-formed body: never empty, and consecutive segments grid-adjacent.
pub open spec fn snake_wf(s: Seq<Point>) -> bool {
    s.len() >= 1 && chain_adjacent(s)
}

/// The snake's body, ordered head first, and its current heading.
#[derive(Debug, Clone)]
pub struct Snake {
    body: VecDeque<Point>,
    direction: Direction,
}

impl View for Snake {
    type V = Seq<Point>;

    closed spec fn view(&self) -> Seq<Point> {
        self.body@
    }
}

impl Snake {
    /// The current heading.
    pub closed spec fn heading(&self) -> Direction {
        self.direction
    }

    /// A one-segment snake at `head`, heading right.
    pub fn new(head: Point) -> (s: Snake)
        ensures
            s@ == seq![head],
            s.heading() == Direction::Right,
    {
        let mut body: VecDeque<Point> = VecDeque::new();
        body.push_back(head);
        proof {
            assert(body@ =~= seq![head]);
        }
        Snake { body, direction: Direction::Right }
    }

    /// Number of body segments.
    pub fn len(&self) -> (n: usize)
        ensures
            n == self@.len(),
    {
        self.body.len()
    }

    /// The head cell.
    pub fn head(&self) -> (p: Point)
        requires
            self@.len() >= 1,
        ensures
            p == self@[0],
    {
        self.body[0]
    }

    /// The current heading.
    pub fn direction(&self) -> (d: Direction)
        ensures
            d == self.heading(),
    {
        self.direction
    }

    /// The cell the head would move to on the next advance: one step from
    /// the head along the current heading. Pure; the result may lie outside
    /// any particular board, and the caller bounds-checks it.
    pub fn next_head(&self) -> (p: Point)
        requires
            self@.len() >= 1,
            i32::MIN < self@[0].x < i32::MAX,
            i32::MIN < self@[0].y < i32::MAX,
        ensures
            p == next_point(self@[0], self.heading()),
            adjacent(p, self@[0]),
    {
        let head = self.body[0];
        match self.direction {
            Direction::Up => Point::new(head.x, head.y - 1),
            Direction::Down => Point::new(head.x, head.y + 1),
            Direction::Left => Point::new(head.x - 1, head.y),
            Direction::Right => Point::new(head.x + 1, head.y),
        }
    }

    /// Advance: prepend `next_head` and drop the tail. The body length is
    /// unchanged; every segment but the old tail survives, shifted one place
    /// toward the tail.
    pub fn step(&mut self, next_head: Point)
        requires
            old(self)@.len() >= 1,
        ensures
            final(self)@ == seq![next_head] + old(self)@.drop_last(),
            final(self)@.len() == old(self)@.len(),
            final(self)@[0] == next_head,
            forall|i: int| 0 <= i < old(self)@.len() - 1 ==> final(self)@[i + 1] == #[trigger] old(self)@[i],
            final(self).heading() == old(self).heading(),
    {
        self.body.push_front(next_head);
        let tail = self.body.pop_back();
        proof {
            assert(tail is Some);
            assert(self.body@ =~= seq![next_head] + old(self)@.drop_last());
        }
    }

    /// Grow: prepend `next_head` and keep the tail. The body length
    /// increases by exactly 1 and every prior segment, the old head
    /// included, survives shifted one place toward the tail.
    pub fn grow(&mut self, next_head: Point)
        requires
            old(self)@.len() >= 1,
        ensures
            final(self)@ == seq![next_head] + old(self)@,
            final(self)@.len() == old(self)@.len() + 1,
            final(self)@[0] == next_head,
            forall|i: int| 0 <= i < old(self)@.len() ==> final(self)@[i + 1] == #[trigger] old(self)@[i],
            final(self).heading() == old(self).heading(),
    {
        self.body.push_front(next_head);
    }

    /// True iff `p` coincides with some body segment.
    pub fn hit_test(&self, p: &Point) -> (r: bool)
        ensures
            r == self@.contains(*p),
    {
        let mut i: usize = 0;
        while i < self.body.len()
            invariant
                i <= self@.len(),
                forall|k: int| 0 <= k < i ==> self@[k] != *p,
            decreases self@.len() - i,
        {
            if self.body[i].is_same(p) {
                proof {
                    assert(self@[i as int] == *p);
                }
                return true;
            }
            i = i + 1;
        }
        proof {
            assert(!self@.contains(*p));
        }
        false
    }

    /// Change the heading to `cmd`, unless `cmd` is the exact opposite of
    /// the current heading, in which case nothing changes (an instant
    /// reversal would fold the snake onto itself). The body is untouched.
    pub fn set_direction(&mut self, cmd: Direction)
        ensures
            final(self)@ == old(self)@,
            final(self).heading() == (if cmd == old(self).heading().spec_opposite() {
                old(self).heading()
            } else {
                cmd
            }),
    {
        if cmd != self.direction.opposite() {
            self.direction = cmd;
        }
    }

    /// The body segments, head first, as a plain vector.
    pub fn segments(&self) -> (v: Vec<Point>)
        ensures
            v@ == self@,
    {
        let mut v: Vec<Point> = Vec::new();
        let mut i: usize = 0;
        while i < self.body.len()
            invariant
                i <= self@.len(),
                v@ == self@.subrange(0, i as int),
            decreases self@.len() - i,
        {
            v.push(self.body[i]);
            i = i + 1;
        }
        proof {
            assert(v@ =~= self@);
        }
        v
    }
}

/// Law: an advance whose incoming head is adjacent to the old head keeps the
/// body well-formed (nonempty, consecutive segments grid-adjacent).
pub proof fn lemma_step_preserves_wf(body: Seq<Point>, next: Point)
    requires
        snake_wf(body),
        adjacent(next, body[0]),
    ensures
        snake_wf(seq![next] + body.drop_last()),
{
    let b2 = seq![next] + body.drop_last();
    assert forall|i: int| 0 <= i < b2.len() - 1 implies adjacent(#[trigger] b2[i], b2[i + 1]) by {
        if i == 0 {
            assert(b2[1] == body[0]);
        } else {
            assert(b2[i] == body[i - 1]);
            assert(b2[i + 1] == body[i]);
            assert(adjacent(body[i - 1], body[i]));
        }
    }
}

/// Law: growth whose incoming head is adjacent to the old head keeps the
/// body well-formed (nonempty, consecutive segments grid-adjacent).
pub proof fn lemma_grow_preserves_wf(body: Seq<Point>, next: Point)
    requires
        snake_wf(body),
        adjacent(next, body[0]),
    ensures
        snake_wf(seq![next] + body),
{
    let b2 = seq![next] + body;
    assert forall|i: int| 0 <= i < b2.len() - 1 implies adjacent(#[trigger] b2[i], b2[i + 1]) by {
        if i == 0 {
            assert(b2[1] == body[0]);
        } else {
            assert(b2[i] == body[i - 1]);
            assert(b2[i + 1] == body[i]);
            assert(adjacent(body[i - 1], body[i]));
        }
    }
}

/// Law: after an advance whose incoming head lies on none of the segments
/// that survive, the body is nonempty and its cells are pairwise distinct.
pub proof fn lemma_step_keeps_distinct(body: Seq<Point>, next: Point)
    requires
        body.len() >= 1,
        distinct_cells(body),
        !body.drop_last().contains(next),
    ensures
        (seq![next] + body.drop_last()).len() >= 1,
        distinct_cells(seq![next] + body.drop_last()),
{
    let rest = body.drop_last();
    let b2 = seq![next] + rest;
    assert forall|i: int, j: int| 0 <= i < j < b2.len() implies b2[i] != b2[j] by {
        if i == 0 {
            assert(rest[j - 1] != next);
        } else {
            assert(b2[i] == body[i - 1]);
            assert(b2[j] == body[j - 1]);
        }
    }
}

/// Law: after growth whose incoming head lies on no current segment, the
/// body is nonempty and its cells are pairwise distinct.
pub proof fn lemma_grow_keeps_distinct(body: Seq<Point>, next: Point)
    requires
        body.len() >= 1,
        distinct_cells(body),
        !body.contains(next),
    ensures
        (seq![next] + body).len() >= 1,
        distinct_cells(seq![next] + body),
{
    let b2 = seq![next] + body;
    assert forall|i: int, j: int| 0 <= i < j < b2.len() implies b2[i] != b2[j] by {
        if i == 0 {
            assert(body[j - 1] != next);
        } else {
            assert(b2[i] == body[i - 1]);
            assert(b2[j] == body[j - 1]);
        }
    }
}

} // verus!
