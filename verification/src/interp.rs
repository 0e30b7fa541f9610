//! The interpreter: fetch, decode, run, one instruction per step.

use vstd::prelude::*;
use crate::entropy::random_byte;
use crate::instruction::{decode, Instruction};
use crate::laws::step_preserves_wf;
use crate::machine::Chip8;
use crate::model::State;
use crate::semantics::{
    agrees, draws_random, effect, execute_spec, fault, fetch_spec, highest_pressed, skip_if,
    step_spec, with_flag_and_reg, with_reg, StepError,
};

verus! {

/// Shifting a byte by one position is halving or doubling it, and its
/// outermost bits are its parity and its top half.
proof fn lemma_shifts(a: u8)
    ensures
        a & 0x1 == a % 2,
        a >> 1 == a / 2,
        a >> 7 == a / 128,
        a << 1 == (a * 2) % 256,
{
    assert(a & 0x1 == a % 2) by (bit_vector);
    assert(a >> 1 == a / 2) by (bit_vector);
    assert(a >> 7 == a / 128) by (bit_vector);
    assert(a << 1 == (a * 2) % 256) by (bit_vector);
}

/// Two bytes joined high byte first.
proof fn lemma_big_endian(hi: u8, lo: u8)
    ensures
        (hi as u16) << 8 | (lo as u16) == hi * 256 + lo,
{
    assert((hi as u16) << 8 | (lo as u16) == hi * 256 + lo) by (bit_vector);
}

/// Instructions that steer the program counter or clear the screen.
spec fn is_flow(instr: Instruction) -> bool {
    match instr {
        Instruction::ClearScreen
        | Instruction::Return
        | Instruction::Jump { .. }
        | Instruction::Call { .. }
        | Instruction::SkipEqImm { .. }
        | Instruction::SkipNeImm { .. }
        | Instruction::SkipEqReg { .. }
        | Instruction::SkipNeReg { .. }
        | Instruction::JumpOffset { .. }
        | Instruction::SkipKeyPressed { .. }
        | Instruction::SkipKeyReleased { .. }
        | Instruction::WaitKey { .. } => true,
        _ => false,
    }
}

/// Instructions that compute a register.
spec fn is_alu(instr: Instruction) -> bool {
    match instr {
        Instruction::LoadImm { .. }
        | Instruction::AddImm { .. }
        | Instruction::Move { .. }
        | Instruction::Or { .. }
        | Instruction::And { .. }
        | Instruction::Xor { .. }
        | Instruction::AddReg { .. }
        | Instruction::SubReg { .. }
        | Instruction::ShiftRight { .. }
        | Instruction::SubRev { .. }
        | Instruction::ShiftLeft { .. }
        | Instruction::Random { .. }
        | Instruction::LoadDelay { .. } => true,
        _ => false,
    }
}

impl Chip8 {
    /// Reads the instruction word at the program counter, high byte first.
    /// Fails if the word does not lie within memory.
    pub fn fetch(&self) -> (res: Result<u16, StepError>)
        ensures
            match fetch_spec(self@) {
                Some(word) => res == Ok::<u16, StepError>(word),
                None => res == Err::<u16, StepError>(StepError::AddressOutOfRange),
            },
    {
        if self.pc >= 4095 {
            return Err(StepError::AddressOutOfRange);
        }
        let hi = self.memory[self.pc as usize];
        let lo = self.memory[self.pc as usize + 1];
        proof {
            lemma_big_endian(hi, lo);
        }
        Ok((hi as u16) << 8 | lo as u16)
    }

    /// The fault, if any, that keeps `instr` from running.
    pub fn fault_of(&self, instr: Instruction) -> (res: Option<StepError>)
        requires
            instr.wf(),
        ensures
            res == fault(self@, instr),
    {
        match instr {
            Instruction::Return => {
                if self.sp == 0 {
                    Some(StepError::StackUnderflow)
                } else if self.sp > 16 {
                    Some(StepError::StackOverflow)
                } else {
                    None
                }
            },
            Instruction::Call { addr } => {
                if self.sp >= 16 {
                    Some(StepError::StackOverflow)
                } else {
                    None
                }
            },
            Instruction::Draw { x, y, n } => {
                if n > 0 && self.i as u32 + n as u32 > 4096 {
                    Some(StepError::AddressOutOfRange)
                } else {
                    None
                }
            },
            Instruction::SkipKeyPressed { x } | Instruction::SkipKeyReleased { x } => {
                if self.v[x as usize] >= 16 {
                    Some(StepError::KeyOutOfRange)
                } else {
                    None
                }
            },
            Instruction::StoreBcd { x } => {
                if self.i as u32 + 2 >= 4096 {
                    Some(StepError::AddressOutOfRange)
                } else {
                    None
                }
            },
            Instruction::StoreRegs { x } | Instruction::LoadRegs { x } => {
                if self.i as u32 + x as u32 >= 4096 {
                    Some(StepError::AddressOutOfRange)
                } else {
                    None
                }
            },
            _ => None,
        }
    }

    /// The pressed key with the highest index, if any key is pressed.
    pub fn pressed_key(&self) -> (found: Option<u8>)
        ensures
            found == highest_pressed(self@.key, 16),
    {
        let mut found: Option<u8> = None;
        let mut k: u8 = 0;
        while k < 16
            invariant
                k <= 16,
                found == highest_pressed(self@.key, k as int),
            decreases 16 - k,
        {
            if self.key[k as usize] == 1 {
                found = Some(k);
            }
            k += 1;
        }
        found
    }

    /// Copies `V0..=VX` into memory from `I` on.
    fn store_regs(&mut self, x: u8)
        requires
            x < 16,
            old(self).i + x < 4096,
        ensures
            final(self)@ == effect(old(self)@, Instruction::StoreRegs { x }, 0),
    {
        let ghost before = self@;
        let mut r: u8 = 0;
        while r <= x
            invariant
                r <= x + 1,
                x < 16,
                before.i + x < 4096,
                self@ == (State { memory: self.memory@, ..before }),
                forall|a: int|
                    0 <= a < 4096 ==> self.memory@[a] == (if before.i <= a < before.i + r {
                        before.v[a - before.i]
                    } else {
                        before.memory[a]
                    }),
            decreases x + 1 - r,
        {
            self.memory[self.i as usize + r as usize] = self.v[r as usize];
            r += 1;
        }
    }

    /// Copies memory from `I` on into `V0..=VX`.
    fn load_regs(&mut self, x: u8)
        requires
            x < 16,
            old(self).i + x < 4096,
        ensures
            final(self)@ == effect(old(self)@, Instruction::LoadRegs { x }, 0),
    {
        let ghost before = self@;
        let mut r: u8 = 0;
        while r <= x
            invariant
                r <= x + 1,
                x < 16,
                before.i + x < 4096,
                self@ == (State { v: self.v@, ..before }),
                forall|q: int|
                    0 <= q < 16 ==> self.v@[q] == (if q < r {
                        before.memory[before.i + q]
                    } else {
                        before.v[q]
                    }),
            decreases x + 1 - r,
        {
            self.v[r as usize] = self.memory[self.i as usize + r as usize];
            r += 1;
        }
    }

    /// Sets register `x` to `value`.
    fn set_reg(&mut self, x: u8, value: u8)
        requires
            x < 16,
        ensures
            final(self)@ == with_reg(old(self)@, x, value),
    {
        self.v[x as usize] = value;
    }

    /// Sets VF to `flag` and then register `x` to `value`.
    fn set_flag_and_reg(&mut self, flag: u8, x: u8, value: u8)
        requires
            x < 16,
        ensures
            final(self)@ == with_flag_and_reg(old(self)@, flag, x, value),
    {
        self.v[0xF] = flag;
        self.v[x as usize] = value;
    }

    /// Moves the program counter past one more instruction if `cond` holds.
    fn skip_when(&mut self, cond: bool)
        requires
            old(self).pc <= 4096,
        ensures
            final(self)@ == skip_if(old(self)@, cond),
    {
        if cond {
            self.pc += 2;
        }
    }

    /// Carries out an instruction that steers the program counter or clears
    /// the screen.
    fn apply_flow(&mut self, instr: Instruction)
        requires
            instr.wf(),
            is_flow(instr),
            fault(old(self)@, instr) is None,
            2 <= old(self).pc <= 4096,
        ensures
            final(self)@ == effect(old(self)@, instr, 0),
    {
        match instr {
            Instruction::ClearScreen => {
                self.gfx = [0;2048];
                self.draw_flag = true;
            },
            Instruction::Return => {
                self.sp -= 1;
                self.pc = self.stack[self.sp as usize];
            },
            Instruction::Jump { addr } => {
                self.pc = addr;
            },
            Instruction::Call { addr } => {
                self.stack[self.sp as usize] = self.pc;
                self.sp += 1;
                self.pc = addr;
            },
            Instruction::SkipEqImm { x, kk } => {
                self.skip_when(self.v[x as usize] == kk);
            },
            Instruction::SkipNeImm { x, kk } => {
                self.skip_when(self.v[x as usize] != kk);
            },
            Instruction::SkipEqReg { x, y } => {
                self.skip_when(self.v[x as usize] == self.v[y as usize]);
            },
            Instruction::SkipNeReg { x, y } => {
                self.skip_when(self.v[x as usize] != self.v[y as usize]);
            },
            Instruction::JumpOffset { addr } => {
                self.pc = addr + self.v[0] as u16;
            },
            Instruction::SkipKeyPressed { x } => {
                self.skip_when(self.key[self.v[x as usize] as usize] == 1);
            },
            Instruction::SkipKeyReleased { x } => {
                self.skip_when(self.key[self.v[x as usize] as usize] == 0);
            },
            Instruction::WaitKey { x } => {
                match self.pressed_key() {
                    Some(k) => {
                        self.set_reg(x, k);
                    },
                    None => {
                        self.pc -= 2;
                    },
                }
            },
            _ => {},
        }
    }

    /// Carries out an instruction that computes a register from registers,
    /// an immediate, the delay timer or the random byte.
    fn apply_alu(&mut self, instr: Instruction, rnd: u8)
        requires
            instr.wf(),
            is_alu(instr),
        ensures
            final(self)@ == effect(old(self)@, instr, rnd),
    {
        match instr {
            Instruction::LoadImm { x, kk } => {
                self.set_reg(x, kk);
            },
            Instruction::AddImm { x, kk } => {
                self.set_reg(x, self.v[x as usize].wrapping_add(kk));
            },
            Instruction::Move { x, y } => {
                self.set_reg(x, self.v[y as usize]);
            },
            Instruction::Or { x, y } => {
                self.set_reg(x, self.v[x as usize] | self.v[y as usize]);
            },
            Instruction::And { x, y } => {
                self.set_reg(x, self.v[x as usize] & self.v[y as usize]);
            },
            Instruction::Xor { x, y } => {
                self.set_reg(x, self.v[x as usize] ^ self.v[y as usize]);
            },
            Instruction::AddReg { x, y } => {
                let a = self.v[x as usize];
                let b = self.v[y as usize];
                let fits: u8 = if a as u16 + b as u16 > 255 { 0 } else { 1 };
                self.set_flag_and_reg(fits, x, a.wrapping_add(b));
            },
            Instruction::SubReg { x, y } => {
                let a = self.v[x as usize];
                let b = self.v[y as usize];
                let fits: u8 = if a < b { 0 } else { 1 };
                self.set_flag_and_reg(fits, x, a.wrapping_sub(b));
            },
            Instruction::ShiftRight { x } => {
                proof {
                    lemma_shifts(self.v@[x as int]);
                    lemma_shifts((self.v@[x as int] % 2) as u8);
                }
                self.set_reg(0xF, self.v[x as usize] & 0x1);
                self.set_reg(x, self.v[x as usize] >> 1);
            },
            Instruction::SubRev { x, y } => {
                let a = self.v[x as usize];
                let b = self.v[y as usize];
                let fits: u8 = if b < a { 0 } else { 1 };
                self.set_flag_and_reg(fits, x, b.wrapping_sub(a));
            },
            Instruction::ShiftLeft { x } => {
                proof {
                    lemma_shifts(self.v@[x as int]);
                    lemma_shifts((self.v@[x as int] / 128) as u8);
                }
                self.set_reg(0xF, self.v[x as usize] >> 7);
                self.set_reg(x, self.v[x as usize] << 1);
            },
            Instruction::Random { x, kk } => {
                self.set_reg(x, rnd & kk);
            },
            Instruction::LoadDelay { x } => {
                self.set_reg(x, self.delay_timer);
            },
            _ => {},
        }
    }

    /// Carries out an instruction that works on memory, the index register,
    /// the timers or the framebuffer.
    fn apply_memory(&mut self, instr: Instruction)
        requires
            instr.wf(),
            !is_flow(instr),
            !is_alu(instr),
            fault(old(self)@, instr) is None,
        ensures
            final(self)@ == effect(old(self)@, instr, 0),
    {
        match instr {
            Instruction::LoadIndex { addr } => {
                self.i = addr;
            },
            Instruction::Draw { x, y, n } => {
                let vx = self.v[x as usize];
                let vy = self.v[y as usize];
                self.draw_sprite(vx, vy, n);
            },
            Instruction::SetDelay { x } => {
                self.delay_timer = self.v[x as usize];
            },
            Instruction::SetSound { x } => {
                self.sound_timer = self.v[x as usize];
            },
            Instruction::AddIndex { x } => {
                self.i = self.i.wrapping_add(self.v[x as usize] as u16);
            },
            Instruction::LoadGlyph { x } => {
                self.i = self.v[x as usize] as u16 * 5;
            },
            Instruction::StoreBcd { x } => {
                let value = self.v[x as usize];
                self.memory[self.i as usize] = value / 100;
                self.memory[self.i as usize + 1] = (value / 10) % 10;
                self.memory[self.i as usize + 2] = value % 10;
            },
            Instruction::StoreRegs { x } => {
                self.store_regs(x);
            },
            Instruction::LoadRegs { x } => {
                self.load_regs(x);
            },
            _ => {},
        }
    }

    /// Carries out `instr` on a machine whose program counter already
    /// points past it.
    fn apply(&mut self, instr: Instruction, rnd: u8)
        requires
            instr.wf(),
            fault(old(self)@, instr) is None,
            2 <= old(self).pc <= 4096,
        ensures
            final(self)@ == effect(old(self)@, instr, rnd),
    {
        match instr {
            Instruction::ClearScreen
            | Instruction::Return
            | Instruction::Jump { .. }
            | Instruction::Call { .. }
            | Instruction::SkipEqImm { .. }
            | Instruction::SkipNeImm { .. }
            | Instruction::SkipEqReg { .. }
            | Instruction::SkipNeReg { .. }
            | Instruction::JumpOffset { .. }
            | Instruction::SkipKeyPressed { .. }
            | Instruction::SkipKeyReleased { .. }
            | Instruction::WaitKey { .. } => self.apply_flow(instr),
            Instruction::LoadImm { .. }
            | Instruction::AddImm { .. }
            | Instruction::Move { .. }
            | Instruction::Or { .. }
            | Instruction::And { .. }
            | Instruction::Xor { .. }
            | Instruction::AddReg { .. }
            | Instruction::SubReg { .. }
            | Instruction::ShiftRight { .. }
            | Instruction::SubRev { .. }
            | Instruction::ShiftLeft { .. }
            | Instruction::Random { .. }
            | Instruction::LoadDelay { .. } => self.apply_alu(instr, rnd),
            _ => self.apply_memory(instr),
        }
    }

    /// Runs `instr`, an instruction fetched at the program counter: moves
    /// the program counter past it, carries it out with `rnd` as the random
    /// byte, and lets the delay timer tick. On a fault nothing changes.
    pub fn execute(&mut self, instr: Instruction, rnd: u8) -> (res: Result<(), StepError>)
        requires
            instr.wf(),
            old(self).pc + 1 < 4096,
        ensures
            agrees(execute_spec(old(self)@, instr, rnd), old(self)@, final(self)@, res),
    {
        match self.fault_of(instr) {
            Some(e) => Err(e),
            None => {
                self.pc += 2;
                self.apply(instr, rnd);
                if self.delay_timer > 0 {
                    self.delay_timer -= 1;
                }
                Ok(())
            },
        }
    }

    /// One step with `rnd` as the byte that a random instruction would draw.
    pub fn step_with(&mut self, rnd: u8) -> (res: Result<(), StepError>)
        ensures
            agrees(step_spec(old(self)@, rnd), old(self)@, final(self)@, res),
            old(self)@.wf() ==> final(self)@.wf(),
    {
        proof {
            if self@.wf() {
                step_preserves_wf(self@, rnd);
            }
        }
        match self.fetch() {
            Err(e) => Err(e),
            Ok(word) => match decode(word) {
                None => Err(StepError::UnknownOpcode(word)),
                Some(instr) => self.execute(instr, rnd),
            },
        }
    }

    /// One step: fetches the instruction at the program counter, decodes it
    /// and runs it. A random instruction draws its byte from the `rand`
    /// crate; every other instruction is a function of the state alone.
    pub fn emulate_cycle(&mut self) -> (res: Result<(), StepError>)
        ensures
            exists|rnd: u8| agrees(step_spec(old(self)@, rnd), old(self)@, final(self)@, res),
            !draws_random(old(self)@) ==> forall|rnd: u8|
                agrees(#[trigger] step_spec(old(self)@, rnd), old(self)@, final(self)@, res),
            old(self)@.wf() ==> final(self)@.wf(),
    {
        match self.fetch() {
            Err(e) => {
                assert(agrees(step_spec(old(self)@, 0), old(self)@, self@, Err(e)));
                Err(e)
            },
            Ok(word) => match decode(word) {
                None => {
                    assert(agrees(
                        step_spec(old(self)@, 0),
                        old(self)@,
                        self@,
                        Err(StepError::UnknownOpcode(word)),
                    ));
                    Err(StepError::UnknownOpcode(word))
                },
                Some(instr) => {
                    let rnd = match instr {
                        Instruction::Random { .. } => random_byte(),
                        _ => 0,
                    };
                    proof {
                        if self@.wf() {
                            step_preserves_wf(self@, rnd);
                        }
                    }
                    let res = self.execute(instr, rnd);
                    assert(agrees(step_spec(old(self)@, rnd), old(self)@, self@, res));
                    res
                },
            },
        }
    }
}

} // verus!
