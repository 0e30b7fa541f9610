//! The machine itself: fixed-size arrays and scalars, its view as a
//! [`State`], and its initial configuration.

use vstd::prelude::*;
use crate::font::{font, fontset};
use crate::model::State;

verus! {

/// One CHIP-8 machine.
#[derive(Debug, PartialEq, Eq)]
pub struct Chip8 {
    /// 4 KiB of memory; the font lives at the bottom, programs start at 0x200.
    pub memory: [u8; 4096],
    /// The registers V0 to VF.
    pub v: [u8; 16],
    /// The index register.
    pub i: u16,
    /// The program counter.
    pub pc: u16,
    /// The 64 by 32 framebuffer, one cell per pixel, row after row.
    pub gfx: [u8; 2048],
    /// The delay timer.
    pub delay_timer: u8,
    /// The sound timer.
    pub sound_timer: u8,
    /// The call stack.
    pub stack: [u16; 16],
    /// The stack pointer: the index of the next free stack slot.
    pub sp: u16,
    /// The keypad: 1 for a pressed key, 0 for a released one.
    pub key: [u8; 16],
    /// Set whenever the framebuffer changes.
    pub draw_flag: bool,
}

impl View for Chip8 {
    type V = State;

    open spec fn view(&self) -> State {
        State {
            memory: self.memory@,
            v: self.v@,
            i: self.i,
            pc: self.pc,
            gfx: self.gfx@,
            delay_timer: self.delay_timer,
            sound_timer: self.sound_timer,
            stack: self.stack@,
            sp: self.sp,
            key: self.key@,
            draw_flag: self.draw_flag,
        }
    }
}

/// The state of a machine that has just been switched on: the font in the
/// first 80 memory cells, everything else zero, and the program counter at
/// the start of the program area.
pub open spec fn initial_state() -> State {
    State {
        memory: Seq::new(4096, |a: int| if a < 80 { font()[a] } else { 0u8 }),
        v: Seq::new(16, |r: int| 0u8),
        i: 0,
        pc: 0x200,
        gfx: Seq::new(2048, |k: int| 0u8),
        delay_timer: 0,
        sound_timer: 0,
        stack: Seq::new(16, |k: int| 0u16),
        sp: 0,
        key: Seq::new(16, |k: int| 0u8),
        draw_flag: false,
    }
}

impl Chip8 {
    /// A machine in its initial state.
    pub fn new() -> (m: Chip8)
        ensures
            m@ == initial_state(),
            m@.wf(),
    {
        let mut memory: [u8; 4096] = [0; 4096];
        let glyphs = fontset();
        let mut a: usize = 0;
        while a < 80
            invariant
                a <= 80,
                glyphs@ == font(),
                forall|b: int| 0 <= b < a ==> memory@[b] == font()[b],
                forall|b: int| a <= b < 4096 ==> memory@[b] == 0,
            decreases 80 - a,
        {
            memory[a] = glyphs[a];
            a += 1;
        }
        let m = Chip8 {
            memory,
            v: [0; 16],
            i: 0,
            pc: 0x200,
            gfx: [0; 2048],
            delay_timer: 0,
            sound_timer: 0,
            stack: [0; 16],
            sp: 0,
            key: [0; 16],
            draw_flag: false,
        };
        assert(m@ =~= initial_state());
        m
    }
}

} // verus!
