//! The drawing surface of the machine seen as a capability.
use vstd::prelude::*;

use crate::emulator::display::{draw_sprite, drawn, erases};
use crate::emulator::emulator::Emu;
use crate::emulator::state::MachineState;

verus! {

/// A monochrome screen on which sprites are drawn by flipping pixels.
pub trait Graphics {
    /// Turns every pixel off.
    fn clear(&mut self);

    /// Draws `sprite`, one byte for each row of eight pixels, with its top
    /// left corner at (`x`, `y`), and says whether a pixel went off.
    fn draw(&mut self, x: u8, y: u8, sprite: &[u8]) -> bool;

    /// The height of the screen in pixels.
    fn height(&self) -> u8;

    /// The width of the screen in pixels.
    fn width(&self) -> u8;
}

impl Graphics for Emu {
    fn clear(&mut self)
        ensures
            final(self)@ == (MachineState {
                screen: Seq::new(2048, |p: int| false),
                ..old(self)@
            }),
    {
        proof {
            use_type_invariant(&*self);
        }
        self.screen = [false; 2048];
        proof {
            assert(self@.screen =~= Seq::new(2048, |p: int| false));
        }
    }

    /// Each set bit of the sprite flips the pixel it lands on, wrapping at
    /// the edges of the screen. Nothing but the screen changes: the flag
    /// register is left alone and the answer is returned instead.
    fn draw(&mut self, x: u8, y: u8, sprite: &[u8]) -> (collision: bool)
        ensures
            final(self)@ == (MachineState {
                screen: drawn(old(self)@.screen, sprite@, x, y, sprite@.len() as int),
                ..old(self)@
            }),
            collision == erases(old(self)@.screen, sprite@, x, y, sprite@.len() as int),
    {
        proof {
            use_type_invariant(&*self);
        }
        let mut screen = self.screen;
        let collision = draw_sprite(&mut screen, x, y, sprite);
        self.screen = screen;
        collision
    }

    fn height(&self) -> (rows: u8)
        ensures
            rows == 32,
    {
        32
    }

    fn width(&self) -> (cols: u8)
        ensures
            cols == 64,
    {
        64
    }
}

} // verus!
