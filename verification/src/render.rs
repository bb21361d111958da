//! The abstract rendering capability the game draws through.
//!
//! The game never touches pixels: it issues paint requests for grid cells
//! through the `Renderer` trait. The trait carries a ghost view, the
//! sequence of paint requests accepted since the last clear, so that what a
//! frame draws is stated and proved; how requests become pixels is the
//! implementor's concern. `RecordingRenderer` is a headless implementation
//! that simply keeps the requests.

use vstd::prelude::*;

use crate::game::Game;
use crate::geometry::Point;

verus! {

/// An RGBA color, 8 bits per channel.
#[derive(Clone, Copy, PartialEq, Eq, Structural, Debug)]
pub struct Color {
    pub r: u8,
    pub g: u8,
    pub b: u8,
    pub a: u8,
}

/// One paint request: fill the cell `point` with `color`.
#[derive(Clone, Copy, PartialEq, Eq, Structural, Debug)]
pub struct DrawCmd {
    pub point: Point,
    pub color: Color,
}

/// The color body segments are painted in.
pub open spec fn snake_color() -> Color {
    Color { r: 32, g: 200, b: 32, a: 255 }
}

/// The color the food cell is painted in.
pub open spec fn food_color() -> Color {
    Color { r: 200, g: 32, b: 32, a: 255 }
}

/// Capability the game draws through.
pub trait Renderer {
    /// Paint requests accepted since the last `clear`, oldest first. A
    /// verified implementation overrides this ghost view; the default is
    /// for implementors outside the library, whose drawing nothing checks.
    open spec fn commands(&self) -> Seq<DrawCmd> {
        Seq::<DrawCmd>::empty()
    }

    /// Paint every listed cell in `color`, after whatever was drawn before;
    /// earlier requests of the frame are kept.
    fn draw_points(&mut self, points: &Vec<Point>, color: Color)
        ensures
            final(self).commands() == old(self).commands() + points@.map_values(
                |p: Point| (DrawCmd { point: p, color }),
            ),
    ;

    /// Reset the surface to the background color, forgetting the paint
    /// requests of the previous frame.
    fn clear(&mut self)
        ensures
            final(self).commands() == Seq::<DrawCmd>::empty(),
    ;

    /// Flush the surface into a caller-supplied pixel buffer; the pixel
    /// format and the scaling are the implementor's concern.
    fn render(&self, buffer: &mut Vec<u32>);
}

/// A headless renderer: keeps the paint requests and produces no pixels.
pub struct RecordingRenderer {
    calls: Vec<DrawCmd>,
}

impl RecordingRenderer {
    /// A recorder with no requests yet.
    pub fn new() -> (r: RecordingRenderer)
        ensures
            r.commands() == Seq::<DrawCmd>::empty(),
    {
        RecordingRenderer { calls: Vec::new() }
    }

    /// The recorded paint requests, oldest first.
    pub fn calls(&self) -> (v: &Vec<DrawCmd>)
        ensures
            v@ == self.commands(),
    {
        &self.calls
    }
}

impl Renderer for RecordingRenderer {
    closed spec fn commands(&self) -> Seq<DrawCmd> {
        self.calls@
    }

    fn draw_points(&mut self, points: &Vec<Point>, color: Color) {
        let mut i: usize = 0;
        while i < points.len()
            invariant
                i <= points@.len(),
                self.calls@ == old(self).calls@ + points@.subrange(0, i as int).map_values(
                    |p: Point| (DrawCmd { point: p, color }),
                ),
            decreases points@.len() - i,
        {
            self.calls.push(DrawCmd { point: points[i], color });
            proof {
                assert(self.calls@ =~= old(self).calls@ + points@.subrange(
                    0,
                    i as int + 1,
                ).map_values(|p: Point| (DrawCmd { point: p, color })));
            }
            i = i + 1;
        }
        proof {
            assert(points@.subrange(0, points@.len() as int) =~= points@);
        }
    }

    fn clear(&mut self) {
        self.calls = Vec::new();
    }

    fn render(&self, buffer: &mut Vec<u32>) {
    }
}

impl Game {
    /// Draw one frame of game state: every body segment in the body color,
    /// then the food cell, when one is active, in the food color. The game
    /// state itself is untouched.
    pub fn render<R: Renderer>(&self, renderer: &mut R)
        ensures
            final(renderer).commands() == old(renderer).commands()
                + self.spec_snake().map_values(
                |p: Point| (DrawCmd { point: p, color: snake_color() }),
            ) + (match self.spec_food() {
                Some(f) => seq![(DrawCmd { point: f, color: food_color() })],
                None => Seq::<DrawCmd>::empty(),
            }),
    {
        let body = self.body();
        renderer.draw_points(&body, Color { r: 32, g: 200, b: 32, a: 255 });
        let ghost mid = renderer.commands();
        match self.food() {
            Some(f) => {
                let mut one: Vec<Point> = Vec::new();
                one.push(f);
                renderer.draw_points(&one, Color { r: 200, g: 32, b: 32, a: 255 });
                proof {
                    assert(one@.map_values(|p: Point| (DrawCmd { point: p, color: food_color() }))
                        =~= seq![(DrawCmd { point: f, color: food_color() })]);
                    assert(renderer.commands() =~= old(renderer).commands()
                        + self.spec_snake().map_values(
                        |p: Point| (DrawCmd { point: p, color: snake_color() }),
                    ) + seq![(DrawCmd { point: f, color: food_color() })]);
                }
            },
            None => {
                proof {
                    assert(renderer.commands() =~= old(renderer).commands()
                        + self.spec_snake().map_values(
                        |p: Point| (DrawCmd { point: p, color: snake_color() }),
                    ) + Seq::<DrawCmd>::empty());
                }
            },
        }
    }
}

} // verus!
