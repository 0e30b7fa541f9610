//! The mathematical model of one machine: every field as a plain value or a
//! sequence of plain values. Contracts elsewhere speak of this model.

use vstd::prelude::*;

verus! {

/// The state of a machine as mathematics sees it.
#[verifier::ext_equal]
pub struct State {
    pub memory: Seq<u8>,
    pub v: Seq<u8>,
    pub i: u16,
    pub pc: u16,
    pub gfx: Seq<u8>,
    pub delay_timer: u8,
    pub sound_timer: u8,
    pub stack: Seq<u16>,
    pub sp: u16,
    pub key: Seq<u8>,
    pub draw_flag: bool,
}

impl State {
    /// Every sequence has the length of the array it stands for.
    pub open spec fn shaped(self) -> bool {
        &&& self.memory.len() == 4096
        &&& self.v.len() == 16
        &&& self.gfx.len() == 2048
        &&& self.stack.len() == 16
        &&& self.key.len() == 16
    }

    /// Every framebuffer cell is 0 or 1.
    pub open spec fn binary_screen(self) -> bool {
        forall|k: int| 0 <= k < self.gfx.len() ==> self.gfx[k] == 0 || self.gfx[k] == 1
    }

    /// The invariant that stepping preserves: the shape, a stack pointer
    /// within the stack, and a framebuffer of single-bit pixels.
    pub open spec fn wf(self) -> bool {
        &&& self.shaped()
        &&& self.sp <= 16
        &&& self.binary_screen()
    }
}

} // verus!
