//! A bounded FIFO queue of direction commands.
//!
//! Input arrives asynchronously with respect to the fixed-rate tick. The
//! queue buffers the commands in arrival order and is drained exactly once
//! per logic tick, immediately before the tick, so that a tick's outcome
//! never depends on where within the poll a key event landed.

use vstd::prelude::*;
use std::collections::VecDeque;

use crate::game::Game;
use crate::geometry::Direction;

verus! {

/// The heading after one command under the reversal guard: the command is
/// ignored when it points exactly opposite the current heading.
pub open spec fn guarded(h: Direction, cmd: Direction) -> Direction {
    if cmd == h.spec_opposite() {
        h
    } else {
        cmd
    }
}

/// The heading after applying the commands in order, each under the
/// reversal guard.
pub open spec fn apply_commands(h: Direction, cmds: Seq<Direction>) -> Direction
    decreases cmds.len(),
{
    if cmds.len() == 0 {
        h
    } else {
        apply_commands(guarded(h, cmds[0]), cmds.drop_first())
    }
}

/// A bounded FIFO of direction commands: one producer (the input source),
/// one consumer (the tick), no reordering. A command that arrives while
/// the queue is full is dropped.
pub struct InputQueue {
    cmds: VecDeque<Direction>,
    cap: usize,
}

impl View for InputQueue {
    type V = Seq<Direction>;

    closed spec fn view(&self) -> Seq<Direction> {
        self.cmds@
    }
}

impl InputQueue {
    /// The most commands the queue will hold.
    pub closed spec fn spec_cap(&self) -> usize {
        self.cap
    }

    /// An empty queue holding at most `cap` commands.
    pub fn new(cap: usize) -> (q: InputQueue)
        requires
            1 <= cap,
        ensures
            q@ == Seq::<Direction>::empty(),
            q.spec_cap() == cap,
    {
        InputQueue { cmds: VecDeque::new(), cap }
    }

    /// Number of buffered commands.
    pub fn len(&self) -> (n: usize)
        ensures
            n == self@.len(),
    {
        self.cmds.len()
    }

    /// Append `cmd` when there is room; report whether it was kept.
    pub fn push(&mut self, cmd: Direction) -> (kept: bool)
        ensures
            final(self).spec_cap() == old(self).spec_cap(),
            kept == (old(self)@.len() < old(self).spec_cap()),
            final(self)@ == (if kept {
                old(self)@.push(cmd)
            } else {
                old(self)@
            }),
    {
        if self.cmds.len() < self.cap {
            self.cmds.push_back(cmd);
            true
        } else {
            false
        }
    }

    /// Remove and return the oldest command, if any.
    pub fn pop(&mut self) -> (r: Option<Direction>)
        ensures
            final(self).spec_cap() == old(self).spec_cap(),
            match r {
                Some(d) => old(self)@.len() >= 1 && d == old(self)@[0] && final(self)@ == old(
                    self,
                )@.drop_first(),
                None => old(self)@.len() == 0 && final(self)@ == old(self)@,
            },
    {
        self.cmds.pop_front()
    }

    /// Drain the queue, oldest first, applying each command to the game's
    /// heading under the reversal guard. Body, food and bounds are
    /// untouched; the queue is left empty.
    pub fn drain_apply(&mut self, game: &mut Game)
        requires
            old(game).wf(),
        ensures
            final(self)@ == Seq::<Direction>::empty(),
            final(self).spec_cap() == old(self).spec_cap(),
            final(game).wf(),
            final(game).spec_size() == old(game).spec_size(),
            final(game).spec_snake() == old(game).spec_snake(),
            final(game).spec_food() == old(game).spec_food(),
            final(game).spec_heading() == apply_commands(old(game).spec_heading(), old(self)@),
    {
        while self.cmds.len() > 0
            invariant
                game.wf(),
                self.spec_cap() == old(self).spec_cap(),
                game.spec_size() == old(game).spec_size(),
                game.spec_snake() == old(game).spec_snake(),
                game.spec_food() == old(game).spec_food(),
                apply_commands(game.spec_heading(), self@) == apply_commands(
                    old(game).spec_heading(),
                    old(self)@,
                ),
            decreases self@.len(),
        {
            let next = self.pop();
            match next {
                Some(cmd) => {
                    game.on_key(cmd);
                },
                None => {},
            }
        }
        proof {
            assert(self@ =~= Seq::<Direction>::empty());
        }
    }
}

} // verus!
