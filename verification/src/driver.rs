//! What a front end needs between steps: input events turned into keypad
//! writes, the sound timer's decay, and the framebuffer turned into the
//! rectangles to paint.

use vstd::prelude::*;
use crate::keypad::{handle_keypress, keypress_spec, Key};
use crate::machine::Chip8;
use crate::model::State;

verus! {

/// An input event, as far as the machine cares.
#[derive(Clone, Copy, Debug, PartialEq, Eq, Structural)]
pub enum Event {
    /// The user asked to leave.
    Quit,
    /// A key went down.
    KeyDown(Key),
    /// A key went up.
    KeyUp(Key),
    /// Anything else.
    Other,
}

/// An axis-aligned rectangle: its top left corner and its size.
#[derive(Clone, Copy, Debug, PartialEq, Eq, Structural)]
pub struct Rect {
    pub x: i32,
    pub y: i32,
    pub width: u32,
    pub height: u32,
}

/// The keypad after `event`.
pub open spec fn event_spec(keys: Seq<u8>, event: Event) -> Seq<u8> {
    match event {
        Event::KeyDown(key) => keypress_spec(keys, key, true),
        Event::KeyUp(key) => keypress_spec(keys, key, false),
        _ => keys,
    }
}

/// The square that shows framebuffer cell `k`: ten units wide and high, at
/// ten times the cell's column and row.
pub open spec fn cell_rect(k: int) -> Rect {
    Rect { x: ((k % 64) * 10) as i32, y: ((k / 64) * 10) as i32, width: 10, height: 10 }
}

/// The squares of the lit cells of `gfx`, row after row, left to right.
pub open spec fn frame_spec(gfx: Seq<u8>) -> Seq<Rect> {
    Seq::new(2048, |k: int| k).filter_map(
        |k: int|
            if gfx[k] == 1 {
                Some(cell_rect(k))
            } else {
                None
            },
    )
}

/// Applies `event` to the keypad `keys` and tells whether it asks to leave.
pub fn handle_event(keys: &mut [u8; 16], event: Event) -> (quit: bool)
    ensures
        quit == (event is Quit),
        final(keys)@ == event_spec(old(keys)@, event),
{
    match event {
        Event::Quit => true,
        Event::KeyDown(key) => {
            handle_keypress(keys, key, true);
            false
        },
        Event::KeyUp(key) => {
            handle_keypress(keys, key, false);
            false
        },
        Event::Other => false,
    }
}

impl Chip8 {
    /// Lets the sound timer lose one, unless it is zero.
    pub fn tick_sound(&mut self)
        ensures
            final(self)@ == (State {
                sound_timer: if old(self).sound_timer > 0 {
                    (old(self).sound_timer - 1) as u8
                } else {
                    0
                },
                ..old(self)@
            }),
    {
        if self.sound_timer > 0 {
            self.sound_timer -= 1;
        }
    }

    /// The squares to paint for the framebuffer as it stands.
    pub fn frame(&self) -> (rects: Vec<Rect>)
        ensures
            rects@ == frame_spec(self@.gfx),
    {
        let ghost cells = Seq::new(2048, |k: int| k);
        let ghost pick = |k: int|
            if self@.gfx[k] == 1 {
                Some(cell_rect(k))
            } else {
                None
            };
        let mut rects: Vec<Rect> = Vec::new();
        let mut y: i32 = 0;
        assert(cells.take(0).filter_map(pick) =~= Seq::<Rect>::empty());
        while y < 32
            invariant
                0 <= y <= 32,
                cells == Seq::new(2048, |k: int| k),
                pick == |k: int|
                    if self@.gfx[k] == 1 {
                        Some(cell_rect(k))
                    } else {
                        None
                    },
                rects@ == cells.take(y * 64).filter_map(pick),
            decreases 32 - y,
        {
            let mut x: i32 = 0;
            while x < 64
                invariant
                    0 <= x <= 64,
                    0 <= y < 32,
                    cells == Seq::new(2048, |k: int| k),
                    pick == |k: int|
                        if self@.gfx[k] == 1 {
                            Some(cell_rect(k))
                        } else {
                            None
                        },
                    rects@ == cells.take(y * 64 + x).filter_map(pick),
                decreases 64 - x,
            {
                proof {
                    cells.lemma_filter_map_take_succ(pick, y * 64 + x);
                }
                if self.gfx[(y * 64 + x) as usize] == 1 {
                    rects.push(Rect { x: x * 10, y: y * 10, width: 10, height: 10 });
                }
                x += 1;
            }
            y += 1;
        }
        assert(cells.take(2048) =~= cells);
        rects
    }

    /// Hands out the frame to paint if the framebuffer has changed since the
    /// last frame was taken, and lowers the draw flag.
    pub fn take_frame(&mut self) -> (frame: Option<Vec<Rect>>)
        ensures
            final(self)@ == (State { draw_flag: false, ..old(self)@ }),
            match frame {
                Some(rects) => old(self).draw_flag && rects@ == frame_spec(old(self)@.gfx),
                None => !old(self).draw_flag,
            },
    {
        if self.draw_flag {
            let rects = self.frame();
            self.draw_flag = false;
            Some(rects)
        } else {
            None
        }
    }
}

} // verus!
