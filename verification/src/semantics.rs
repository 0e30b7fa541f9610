//! What one step does, stated over the model: which instruction is fetched,
//! when it faults, and the state it leaves behind when it does not.

use vstd::prelude::*;
use crate::instruction::{decode_spec, Instruction};
use crate::model::State;
use crate::sprite::{sprite_collides, sprite_drawn};

verus! {

/// Why a step could not be carried out.
#[derive(Clone, Copy, Debug, PartialEq, Eq, Structural)]
pub enum StepError {
    /// The fetched word encodes no instruction; the word is attached.
    UnknownOpcode(u16),
    /// A call with a full stack, or a return with the stack pointer beyond the stack.
    StackOverflow,
    /// A return with an empty stack.
    StackUnderflow,
    /// A fetch, a sprite row, or a register or digit transfer that reaches past the end of memory.
    AddressOutOfRange,
    /// A key test on a key index above 15.
    KeyOutOfRange,
}

/// The big-endian word at the program counter, if both of its bytes lie in memory.
pub open spec fn fetch_spec(s: State) -> Option<u16> {
    if s.pc as int + 1 < 4096 {
        Some((s.memory[s.pc as int] as int * 256 + s.memory[s.pc as int + 1] as int) as u16)
    } else {
        None
    }
}

/// The state with the program counter moved past the fetched instruction.
pub open spec fn advance(s: State) -> State {
    State { pc: (s.pc + 2) as u16, ..s }
}

/// The state with the program counter moved past one more instruction if `cond` holds.
pub open spec fn skip_if(s: State, cond: bool) -> State {
    if cond {
        State { pc: (s.pc + 2) as u16, ..s }
    } else {
        s
    }
}

/// The state with register `x` set to `value`.
pub open spec fn with_reg(s: State, x: u8, value: u8) -> State {
    State { v: s.v.update(x as int, value), ..s }
}

/// The state with VF set to `flag` and then register `x` set to `value`:
/// where `x` is VF itself, the value wins.
pub open spec fn with_flag_and_reg(s: State, flag: u8, x: u8, value: u8) -> State {
    State { v: s.v.update(15, flag).update(x as int, value), ..s }
}

/// The highest index below `n` of a pressed key, if any key below `n` is pressed.
pub open spec fn highest_pressed(key: Seq<u8>, n: int) -> Option<u8>
    decreases n,
{
    if n <= 0 {
        None
    } else if key[n - 1] == 1 {
        Some((n - 1) as u8)
    } else {
        highest_pressed(key, n - 1)
    }
}

/// The fault, if any, that keeps `instr` from running in state `s`.
pub open spec fn fault(s: State, instr: Instruction) -> Option<StepError> {
    match instr {
        Instruction::Return => if s.sp == 0 {
            Some(StepError::StackUnderflow)
        } else if s.sp > 16 {
            Some(StepError::StackOverflow)
        } else {
            None
        },
        Instruction::Call { addr } => if s.sp >= 16 {
            Some(StepError::StackOverflow)
        } else {
            None
        },
        Instruction::Draw { x, y, n } => if n > 0 && s.i + n > 4096 {
            Some(StepError::AddressOutOfRange)
        } else {
            None
        },
        Instruction::SkipKeyPressed { x } | Instruction::SkipKeyReleased { x } => if s.v[x as int]
            >= 16 {
            Some(StepError::KeyOutOfRange)
        } else {
            None
        },
        Instruction::StoreBcd { x } => if s.i + 2 >= 4096 {
            Some(StepError::AddressOutOfRange)
        } else {
            None
        },
        Instruction::StoreRegs { x } | Instruction::LoadRegs { x } => if s.i + x >= 4096 {
            Some(StepError::AddressOutOfRange)
        } else {
            None
        },
        _ => None,
    }
}

/// The state that `instr` leaves behind when it runs without fault in `s`,
/// a state whose program counter already points past `instr`. `rnd` is the
/// byte drawn for the random instruction; no other instruction reads it.
pub open spec fn effect(s: State, instr: Instruction, rnd: u8) -> State {
    match instr {
        Instruction::ClearScreen => State {
            gfx: Seq::new(2048, |k: int| 0u8),
            draw_flag: true,
            ..s
        },
        Instruction::Return => State { sp: (s.sp - 1) as u16, pc: s.stack[s.sp - 1], ..s },
        Instruction::Jump { addr } => State { pc: addr, ..s },
        Instruction::Call { addr } => State {
            stack: s.stack.update(s.sp as int, s.pc),
            sp: (s.sp + 1) as u16,
            pc: addr,
            ..s
        },
        Instruction::SkipEqImm { x, kk } => skip_if(s, s.v[x as int] == kk),
        Instruction::SkipNeImm { x, kk } => skip_if(s, s.v[x as int] != kk),
        Instruction::SkipEqReg { x, y } => skip_if(s, s.v[x as int] == s.v[y as int]),
        Instruction::LoadImm { x, kk } => with_reg(s, x, kk),
        Instruction::AddImm { x, kk } => with_reg(s, x, ((s.v[x as int] + kk) % 256) as u8),
        Instruction::Move { x, y } => with_reg(s, x, s.v[y as int]),
        Instruction::Or { x, y } => with_reg(s, x, s.v[x as int] | s.v[y as int]),
        Instruction::And { x, y } => with_reg(s, x, s.v[x as int] & s.v[y as int]),
        Instruction::Xor { x, y } => with_reg(s, x, s.v[x as int] ^ s.v[y as int]),
        Instruction::AddReg { x, y } => {
            let sum = s.v[x as int] + s.v[y as int];
            with_flag_and_reg(s, if sum > 255 { 0 } else { 1 }, x, (sum % 256) as u8)
        },
        Instruction::SubReg { x, y } => {
            let diff = s.v[x as int] - s.v[y as int];
            with_flag_and_reg(s, if diff < 0 { 0 } else { 1 }, x, (diff % 256) as u8)
        },
        Instruction::ShiftRight { x } => {
            let flagged = s.v.update(15, (s.v[x as int] % 2) as u8);
            State { v: flagged.update(x as int, (flagged[x as int] / 2) as u8), ..s }
        },
        Instruction::SubRev { x, y } => {
            let diff = s.v[y as int] - s.v[x as int];
            with_flag_and_reg(s, if diff < 0 { 0 } else { 1 }, x, (diff % 256) as u8)
        },
        Instruction::ShiftLeft { x } => {
            let flagged = s.v.update(15, (s.v[x as int] / 128) as u8);
            State { v: flagged.update(x as int, ((flagged[x as int] * 2) % 256) as u8), ..s }
        },
        Instruction::SkipNeReg { x, y } => skip_if(s, s.v[x as int] != s.v[y as int]),
        Instruction::LoadIndex { addr } => State { i: addr, ..s },
        Instruction::JumpOffset { addr } => State { pc: (addr + s.v[0]) as u16, ..s },
        Instruction::Random { x, kk } => with_reg(s, x, rnd & kk),
        Instruction::Draw { x, y, n } => {
            let vx = s.v[x as int];
            let vy = s.v[y as int];
            State {
                gfx: sprite_drawn(s.gfx, s.memory, s.i as int, vx as int, vy as int, n as int),
                v: s.v.update(
                    15,
                    if sprite_collides(s.gfx, s.memory, s.i as int, vx as int, vy as int, n as int) {
                        1u8
                    } else {
                        0u8
                    },
                ),
                draw_flag: true,
                ..s
            }
        },
        Instruction::SkipKeyPressed { x } => skip_if(s, s.key[s.v[x as int] as int] == 1),
        Instruction::SkipKeyReleased { x } => skip_if(s, s.key[s.v[x as int] as int] == 0),
        Instruction::LoadDelay { x } => with_reg(s, x, s.delay_timer),
        Instruction::WaitKey { x } => match highest_pressed(s.key, 16) {
            Some(k) => with_reg(s, x, k),
            None => State { pc: (s.pc - 2) as u16, ..s },
        },
        Instruction::SetDelay { x } => State { delay_timer: s.v[x as int], ..s },
        Instruction::SetSound { x } => State { sound_timer: s.v[x as int], ..s },
        Instruction::AddIndex { x } => State { i: ((s.i + s.v[x as int]) % 0x10000) as u16, ..s },
        Instruction::LoadGlyph { x } => State { i: (s.v[x as int] * 5) as u16, ..s },
        Instruction::StoreBcd { x } => {
            let value = s.v[x as int];
            State {
                memory: s.memory.update(s.i as int, value / 100).update(
                    s.i + 1,
                    (value / 10) % 10,
                ).update(s.i + 2, value % 10),
                ..s
            }
        },
        Instruction::StoreRegs { x } => State {
            memory: Seq::new(
                4096,
                |a: int|
                    if s.i <= a <= s.i + x {
                        s.v[a - s.i]
                    } else {
                        s.memory[a]
                    },
            ),
            ..s
        },
        Instruction::LoadRegs { x } => State {
            v: Seq::new(
                16,
                |r: int|
                    if r <= x {
                        s.memory[s.i + r]
                    } else {
                        s.v[r]
                    },
            ),
            ..s
        },
    }
}

/// The state with the delay timer one lower, unless it is already zero.
pub open spec fn tick(s: State) -> State {
    State { delay_timer: if s.delay_timer > 0 { (s.delay_timer - 1) as u8 } else { 0 }, ..s }
}

/// What running `instr` does to `s`, the state it was fetched from: the
/// fault that stops it, or else the state after the program counter has
/// advanced, the instruction has taken effect and the delay timer has ticked.
pub open spec fn execute_spec(s: State, instr: Instruction, rnd: u8) -> Result<State, StepError> {
    match fault(s, instr) {
        Some(e) => Err(e),
        None => Ok(tick(effect(advance(s), instr, rnd))),
    }
}

/// What one step does to `s`: fetch, decode, run.
pub open spec fn step_spec(s: State, rnd: u8) -> Result<State, StepError> {
    match fetch_spec(s) {
        None => Err(StepError::AddressOutOfRange),
        Some(word) => match decode_spec(word) {
            None => Err(StepError::UnknownOpcode(word)),
            Some(instr) => execute_spec(s, instr, rnd),
        },
    }
}

/// Whether the step that `s` is about to take reads the random byte.
pub open spec fn draws_random(s: State) -> bool {
    fetch_spec(s) matches Some(word) && decode_spec(word) matches Some(Instruction::Random { .. })
}

/// Whether a finished step agrees with `outcome`: on success the machine is
/// in the new state, on a fault it is as it was and the fault is reported.
pub open spec fn agrees(
    outcome: Result<State, StepError>,
    before: State,
    after: State,
    res: Result<(), StepError>,
) -> bool {
    match outcome {
        Ok(next) => res is Ok && after == next,
        Err(e) => res == Err::<(), StepError>(e) && after == before,
    }
}

} // verus!
