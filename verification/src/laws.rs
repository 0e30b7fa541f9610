//! Laws of the interpreter, proved over the model that the contracts of the
//! executable functions speak of.

use vstd::prelude::*;
use crate::font::font;
use crate::instruction::{decode_spec, Instruction};
use crate::machine::initial_state;
use crate::model::State;
use crate::semantics::{draws_random, effect, fetch_spec, highest_pressed, step_spec};
use crate::sprite::{cell_covered, sprite_collides, sprite_drawn};

verus! {

/// The instruction that `s` is about to run, if its next word can be
/// fetched and encodes one.
pub open spec fn next_instruction(s: State) -> Option<Instruction> {
    match fetch_spec(s) {
        Some(word) => decode_spec(word),
        None => None,
    }
}

/// Whether no key of the keypad is pressed.
pub open spec fn no_key_pressed(key: Seq<u8>) -> bool {
    forall|k: int| 0 <= k < 16 ==> key[k] != 1
}

/// Among the first `n` keys, the wait-for-key instruction picks the pressed
/// key above which no key is pressed, and picks none only if none is pressed.
pub proof fn highest_pressed_wins(key: Seq<u8>, n: int)
    requires
        0 <= n <= 16,
    ensures
        match highest_pressed(key, n) {
            Some(k) => 0 <= k < n && key[k as int] == 1 && forall|j: int|
                k < j < n ==> key[j] != 1,
            None => forall|j: int| 0 <= j < n ==> key[j] != 1,
        },
    decreases n,
{
    if n > 0 && key[n - 1] != 1 {
        highest_pressed_wins(key, n - 1);
    }
}

/// A step is a function of the state: unless the instruction about to run
/// is the random instruction, the byte drawn has no part in the outcome.
pub proof fn step_ignores_chance(s: State, r1: u8, r2: u8)
    requires
        s.shaped(),
        !draws_random(s),
    ensures
        step_spec(s, r1) == step_spec(s, r2),
{
}

/// Where the program counter stands after a step that ran `instr` from `s`,
/// a state whose program counter held the address of `instr`.
pub open spec fn next_pc(s: State, instr: Instruction) -> int {
    match instr {
        Instruction::Jump { addr } | Instruction::Call { addr } => addr as int,
        Instruction::JumpOffset { addr } => addr + s.v[0],
        Instruction::Return => s.stack[s.sp - 1] as int,
        Instruction::SkipEqImm { x, kk } => s.pc + 2 + if s.v[x as int] == kk { 2int } else { 0 },
        Instruction::SkipNeImm { x, kk } => s.pc + 2 + if s.v[x as int] != kk { 2int } else { 0 },
        Instruction::SkipEqReg { x, y } => s.pc + 2 + if s.v[x as int] == s.v[y as int] {
            2int
        } else {
            0
        },
        Instruction::SkipNeReg { x, y } => s.pc + 2 + if s.v[x as int] != s.v[y as int] {
            2int
        } else {
            0
        },
        Instruction::SkipKeyPressed { x } => s.pc + 2 + if s.key[s.v[x as int] as int] == 1 {
            2int
        } else {
            0
        },
        Instruction::SkipKeyReleased { x } => s.pc + 2 + if s.key[s.v[x as int] as int] == 0 {
            2int
        } else {
            0
        },
        Instruction::WaitKey { x } => if no_key_pressed(s.key) {
            s.pc as int
        } else {
            s.pc + 2
        },
        _ => s.pc + 2,
    }
}

/// The program counter advances by exactly 2, except that a skip adds 2
/// more when its condition holds, a jump, a call and a return set it anew,
/// and a wait for a key with no key pressed leaves it where it was.
pub proof fn program_counter_law(s: State, rnd: u8)
    requires
        s.shaped(),
        step_spec(s, rnd) is Ok,
    ensures
        next_instruction(s) is Some,
        step_spec(s, rnd)->Ok_0.pc == next_pc(s, next_instruction(s)->Some_0),
{
    highest_pressed_wins(s.key, 16);
}

/// A call followed at once by a return brings the program counter to the
/// instruction after the call and the stack pointer to what it was before.
pub proof fn call_then_return(s: State, r1: u8, r2: u8)
    requires
        s.shaped(),
        next_instruction(s) matches Some(Instruction::Call { .. }),
        step_spec(s, r1) is Ok,
        next_instruction(step_spec(s, r1)->Ok_0) == Some(Instruction::Return),
    ensures
        step_spec(step_spec(s, r1)->Ok_0, r2) matches Ok(u) && u.pc == s.pc + 2 && u.sp == s.sp,
{
}

/// A successful step keeps a well-formed state well-formed: the stack
/// pointer stays within the stack and every framebuffer cell stays 0 or 1.
pub proof fn step_preserves_wf(s: State, rnd: u8)
    requires
        s.wf(),
    ensures
        step_spec(s, rnd) matches Ok(t) ==> t.wf(),
{
    if let Ok(t) = step_spec(s, rnd) {
        assert forall|k: int| 0 <= k < t.gfx.len() implies t.gfx[k] == 0 || t.gfx[k] == 1 by {
            let g = s.gfx[k];
            assert(g == 0 || g == 1);
            assert(0u8 ^ 1 == 1 && 1u8 ^ 1 == 0) by (bit_vector);
        }
    }
}

/// A step leaves the keypad to whoever reads the keyboard and the lowering
/// of the draw flag to whoever paints: it never writes a key, never lowers
/// the flag, and raises the flag whenever it changes the framebuffer.
pub proof fn step_respects_front_end(s: State, rnd: u8)
    requires
        s.shaped(),
        step_spec(s, rnd) is Ok,
    ensures
        ({
            let t = step_spec(s, rnd)->Ok_0;
            &&& t.key == s.key
            &&& s.draw_flag ==> t.draw_flag
            &&& t.gfx != s.gfx ==> t.draw_flag
        }),
{
}

/// The delay timer loses one per successful step and stops at zero; an
/// instruction that sets it counts as set before the step's tick. The sound
/// timer moves only when an instruction sets it.
pub proof fn timers_law(s: State, rnd: u8)
    requires
        s.shaped(),
        step_spec(s, rnd) is Ok,
    ensures
        ({
            let t = step_spec(s, rnd)->Ok_0;
            let instr = next_instruction(s)->Some_0;
            let delay = match instr {
                Instruction::SetDelay { x } => s.v[x as int],
                _ => s.delay_timer,
            };
            let sound = match instr {
                Instruction::SetSound { x } => s.v[x as int],
                _ => s.sound_timer,
            };
            &&& t.delay_timer == if delay > 0 { delay - 1 } else { 0 }
            &&& t.sound_timer == sound
        }),
{
}

/// Drawing a sprite twice at the same place restores the framebuffer, and
/// the second drawing collides exactly if the sprite covers a cell that was
/// dark before the first.
pub proof fn draw_twice_restores(gfx: Seq<u8>, memory: Seq<u8>, i: int, vx: int, vy: int, n: int)
    requires
        gfx.len() == 2048,
    ensures
        sprite_drawn(sprite_drawn(gfx, memory, i, vx, vy, n), memory, i, vx, vy, n) == gfx,
        sprite_collides(sprite_drawn(gfx, memory, i, vx, vy, n), memory, i, vx, vy, n) <==> exists|
            k: int,
        |
            0 <= k < 2048 && #[trigger] cell_covered(memory, i, vx, vy, n, k) && gfx[k] == 0,
{
    let once = sprite_drawn(gfx, memory, i, vx, vy, n);
    let twice = sprite_drawn(once, memory, i, vx, vy, n);
    assert forall|k: int| 0 <= k < 2048 implies twice[k] == gfx[k] && (cell_covered(
        memory,
        i,
        vx,
        vy,
        n,
        k,
    ) ==> (once[k] == 1 <==> gfx[k] == 0)) by {
        let g = gfx[k];
        assert((g ^ 1) ^ 1 == g && ((g ^ 1) == 1 <==> g == 0)) by (bit_vector);
    }
    assert(twice =~= gfx);
    if sprite_collides(once, memory, i, vx, vy, n) {
        let k = choose|k: int|
            0 <= k < 2048 && #[trigger] cell_covered(memory, i, vx, vy, n, k) && once[k] == 1;
        assert(gfx[k] == 0);
    }
    if exists|k: int|
        0 <= k < 2048 && #[trigger] cell_covered(memory, i, vx, vy, n, k) && gfx[k] == 0 {
        let k = choose|k: int|
            0 <= k < 2048 && #[trigger] cell_covered(memory, i, vx, vy, n, k) && gfx[k] == 0;
        assert(once[k] == 1);
    }
}

/// Drawing touches no cell outside the 8-by-`n` rectangle whose top left
/// corner is (`vx`, `vy`): what would fall right of the last column or below
/// the last row is dropped, never wrapped to the first.
pub proof fn draw_clips(gfx: Seq<u8>, memory: Seq<u8>, i: int, vx: int, vy: int, n: int, k: int)
    requires
        gfx.len() == 2048,
        0 <= k < 2048,
        !(vx <= k % 64 < vx + 8 && vy <= k / 64 < vy + n),
    ensures
        sprite_drawn(gfx, memory, i, vx, vy, n)[k] == gfx[k],
{
}

/// In a machine that has just been switched on, the glyph instruction
/// points the index register at the five font rows of the digit in VX.
pub proof fn glyph_is_addressed(s: State, x: u8, rnd: u8, row: int)
    requires
        s.shaped(),
        s.memory == initial_state().memory,
        x < 16,
        s.v[x as int] < 16,
        0 <= row < 5,
    ensures
        ({
            let t = effect(s, Instruction::LoadGlyph { x }, rnd);
            &&& t.i == 5 * s.v[x as int]
            &&& t.memory[t.i + row] == font()[5 * s.v[x as int] + row]
        }),
{
}

} // verus!
