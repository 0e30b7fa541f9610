//! Instructions and the decoder that turns a 16-bit instruction word into one.

use vstd::prelude::*;

verus! {

/// One decoded instruction. `x` and `y` name registers, `kk` is an 8-bit
/// immediate, `addr` a 12-bit address and `n` a 4-bit row count.
#[derive(Clone, Copy, Debug, PartialEq, Eq, Structural)]
pub enum Instruction {
    /// Clear the framebuffer.
    ClearScreen,
    /// Return from a subroutine.
    Return,
    /// Jump to `addr`.
    Jump { addr: u16 },
    /// Call the subroutine at `addr`.
    Call { addr: u16 },
    /// Skip the next instruction if `VX == kk`.
    SkipEqImm { x: u8, kk: u8 },
    /// Skip the next instruction if `VX != kk`.
    SkipNeImm { x: u8, kk: u8 },
    /// Skip the next instruction if `VX == VY`.
    SkipEqReg { x: u8, y: u8 },
    /// `VX = kk`.
    LoadImm { x: u8, kk: u8 },
    /// `VX = VX + kk`, wrapping, flag untouched.
    AddImm { x: u8, kk: u8 },
    /// `VX = VY`.
    Move { x: u8, y: u8 },
    /// `VX = VX | VY`.
    Or { x: u8, y: u8 },
    /// `VX = VX & VY`.
    And { x: u8, y: u8 },
    /// `VX = VX ^ VY`.
    Xor { x: u8, y: u8 },
    /// `VX = VX + VY`, wrapping; VF tells whether the sum fitted.
    AddReg { x: u8, y: u8 },
    /// `VX = VX - VY`, wrapping; VF tells whether no borrow was needed.
    SubReg { x: u8, y: u8 },
    /// `VX = VX >> 1`; VF receives the bit shifted out.
    ShiftRight { x: u8 },
    /// `VX = VY - VX`, wrapping; VF tells whether no borrow was needed.
    SubRev { x: u8, y: u8 },
    /// `VX = VX << 1`; VF receives the bit shifted out.
    ShiftLeft { x: u8 },
    /// Skip the next instruction if `VX != VY`.
    SkipNeReg { x: u8, y: u8 },
    /// `I = addr`.
    LoadIndex { addr: u16 },
    /// Jump to `addr + V0`.
    JumpOffset { addr: u16 },
    /// `VX = random byte & kk`.
    Random { x: u8, kk: u8 },
    /// Draw the `n`-row sprite at `I` at position (`VX`, `VY`).
    Draw { x: u8, y: u8, n: u8 },
    /// Skip the next instruction if key `VX` is pressed.
    SkipKeyPressed { x: u8 },
    /// Skip the next instruction if key `VX` is released.
    SkipKeyReleased { x: u8 },
    /// `VX = delay timer`.
    LoadDelay { x: u8 },
    /// Wait until a key is pressed and store its index in `VX`.
    WaitKey { x: u8 },
    /// `delay timer = VX`.
    SetDelay { x: u8 },
    /// `sound timer = VX`.
    SetSound { x: u8 },
    /// `I = I + VX`.
    AddIndex { x: u8 },
    /// `I = address of the glyph for digit VX`.
    LoadGlyph { x: u8 },
    /// Store the three decimal digits of `VX` at `I`, `I + 1`, `I + 2`.
    StoreBcd { x: u8 },
    /// Store `V0..=VX` in memory from `I` on.
    StoreRegs { x: u8 },
    /// Load `V0..=VX` from memory from `I` on.
    LoadRegs { x: u8 },
}

impl Instruction {
    /// Every operand fits the bit field it is decoded from.
    pub open spec fn wf(self) -> bool {
        match self {
            Instruction::ClearScreen | Instruction::Return => true,
            Instruction::Jump { addr }
            | Instruction::Call { addr }
            | Instruction::LoadIndex { addr }
            | Instruction::JumpOffset { addr } => addr < 4096,
            Instruction::SkipEqImm { x, kk }
            | Instruction::SkipNeImm { x, kk }
            | Instruction::LoadImm { x, kk }
            | Instruction::AddImm { x, kk }
            | Instruction::Random { x, kk } => x < 16,
            Instruction::SkipEqReg { x, y }
            | Instruction::Move { x, y }
            | Instruction::Or { x, y }
            | Instruction::And { x, y }
            | Instruction::Xor { x, y }
            | Instruction::AddReg { x, y }
            | Instruction::SubReg { x, y }
            | Instruction::SubRev { x, y }
            | Instruction::SkipNeReg { x, y } => x < 16 && y < 16,
            Instruction::Draw { x, y, n } => x < 16 && y < 16 && n < 16,
            Instruction::ShiftRight { x }
            | Instruction::ShiftLeft { x }
            | Instruction::SkipKeyPressed { x }
            | Instruction::SkipKeyReleased { x }
            | Instruction::LoadDelay { x }
            | Instruction::WaitKey { x }
            | Instruction::SetDelay { x }
            | Instruction::SetSound { x }
            | Instruction::AddIndex { x }
            | Instruction::LoadGlyph { x }
            | Instruction::StoreBcd { x }
            | Instruction::StoreRegs { x }
            | Instruction::LoadRegs { x } => x < 16,
        }
    }
}

/// The opcode group of a word: its highest hexadecimal digit.
pub open spec fn word_group(word: u16) -> int {
    word as int / 0x1000
}

/// The X field of a word: its second hexadecimal digit.
pub open spec fn word_x(word: u16) -> u8 {
    ((word as int / 0x100) % 16) as u8
}

/// The Y field of a word: its third hexadecimal digit.
pub open spec fn word_y(word: u16) -> u8 {
    ((word as int / 0x10) % 16) as u8
}

/// The N field of a word: its lowest hexadecimal digit.
pub open spec fn word_n(word: u16) -> u8 {
    (word as int % 16) as u8
}

/// The 8-bit immediate of a word: its low byte.
pub open spec fn word_kk(word: u16) -> u8 {
    (word as int % 0x100) as u8
}

/// The 12-bit address of a word: its three low hexadecimal digits.
pub open spec fn word_addr(word: u16) -> u16 {
    (word as int % 0x1000) as u16
}

/// The register-to-register group, selected by the N field.
pub open spec fn decode_alu(x: u8, y: u8, n: u8) -> Option<Instruction> {
    if n == 0x0 {
        Some(Instruction::Move { x, y })
    } else if n == 0x1 {
        Some(Instruction::Or { x, y })
    } else if n == 0x2 {
        Some(Instruction::And { x, y })
    } else if n == 0x3 {
        Some(Instruction::Xor { x, y })
    } else if n == 0x4 {
        Some(Instruction::AddReg { x, y })
    } else if n == 0x5 {
        Some(Instruction::SubReg { x, y })
    } else if n == 0x6 {
        Some(Instruction::ShiftRight { x })
    } else if n == 0x7 {
        Some(Instruction::SubRev { x, y })
    } else if n == 0xE {
        Some(Instruction::ShiftLeft { x })
    } else {
        None
    }
}

/// The timer, keypad wait, index and memory group, selected by the low byte.
pub open spec fn decode_misc(x: u8, kk: u8) -> Option<Instruction> {
    if kk == 0x07 {
        Some(Instruction::LoadDelay { x })
    } else if kk == 0x0A {
        Some(Instruction::WaitKey { x })
    } else if kk == 0x15 {
        Some(Instruction::SetDelay { x })
    } else if kk == 0x18 {
        Some(Instruction::SetSound { x })
    } else if kk == 0x1E {
        Some(Instruction::AddIndex { x })
    } else if kk == 0x29 {
        Some(Instruction::LoadGlyph { x })
    } else if kk == 0x33 {
        Some(Instruction::StoreBcd { x })
    } else if kk == 0x55 {
        Some(Instruction::StoreRegs { x })
    } else if kk == 0x65 {
        Some(Instruction::LoadRegs { x })
    } else {
        None
    }
}

/// What a word means: the instruction it encodes, or `None` if it encodes
/// none. The group digit selects the family; within the families `0`, `8`,
/// `E` and `F` the low byte or the low digit selects the member. Fields that
/// a family does not read may hold anything.
pub open spec fn decode_spec(word: u16) -> Option<Instruction> {
    let group = word_group(word);
    let x = word_x(word);
    let y = word_y(word);
    let n = word_n(word);
    let kk = word_kk(word);
    let addr = word_addr(word);
    if group == 0x0 {
        if kk == 0xE0 {
            Some(Instruction::ClearScreen)
        } else if kk == 0xEE {
            Some(Instruction::Return)
        } else {
            None
        }
    } else if group == 0x1 {
        Some(Instruction::Jump { addr })
    } else if group == 0x2 {
        Some(Instruction::Call { addr })
    } else if group == 0x3 {
        Some(Instruction::SkipEqImm { x, kk })
    } else if group == 0x4 {
        Some(Instruction::SkipNeImm { x, kk })
    } else if group == 0x5 {
        Some(Instruction::SkipEqReg { x, y })
    } else if group == 0x6 {
        Some(Instruction::LoadImm { x, kk })
    } else if group == 0x7 {
        Some(Instruction::AddImm { x, kk })
    } else if group == 0x8 {
        decode_alu(x, y, n)
    } else if group == 0x9 {
        Some(Instruction::SkipNeReg { x, y })
    } else if group == 0xA {
        Some(Instruction::LoadIndex { addr })
    } else if group == 0xB {
        Some(Instruction::JumpOffset { addr })
    } else if group == 0xC {
        Some(Instruction::Random { x, kk })
    } else if group == 0xD {
        Some(Instruction::Draw { x, y, n })
    } else if group == 0xE {
        if kk == 0x9E {
            Some(Instruction::SkipKeyPressed { x })
        } else if kk == 0xA1 {
            Some(Instruction::SkipKeyReleased { x })
        } else {
            None
        }
    } else {
        decode_misc(x, kk)
    }
}

/// The masks and shifts of the decoder extract the hexadecimal digits.
proof fn lemma_fields(word: u16)
    ensures
        (word & 0xF000) >> 12 == word_group(word),
        0 <= word_group(word) < 16,
        ((word & 0x0F00) >> 8) as u8 == word_x(word),
        ((word & 0x00F0) >> 4) as u8 == word_y(word),
        (word & 0x000F) as u8 == word_n(word),
        (word & 0x00FF) as u8 == word_kk(word),
        word & 0x0FFF == word_addr(word),
        word_x(word) < 16,
        word_y(word) < 16,
        word_n(word) < 16,
        word_addr(word) < 4096,
{
    assert((word & 0xF000) >> 12 == word / 0x1000) by (bit_vector);
    assert((word & 0x0F00) >> 8 == (word / 0x100) % 16) by (bit_vector);
    assert((word & 0x00F0) >> 4 == (word / 0x10) % 16) by (bit_vector);
    assert(word & 0x000F == word % 16) by (bit_vector);
    assert(word & 0x00FF == word % 0x100) by (bit_vector);
    assert(word & 0x0FFF == word % 0x1000) by (bit_vector);
}

/// Decodes an instruction word.
pub fn decode(word: u16) -> (instr: Option<Instruction>)
    ensures
        instr == decode_spec(word),
        instr matches Some(i) ==> i.wf(),
{
    proof {
        lemma_fields(word);
    }
    let group: u16 = (word & 0xF000) >> 12;
    let x: u8 = ((word & 0x0F00) >> 8) as u8;
    let y: u8 = ((word & 0x00F0) >> 4) as u8;
    let n: u8 = (word & 0x000F) as u8;
    let kk: u8 = (word & 0x00FF) as u8;
    let addr: u16 = word & 0x0FFF;
    match group {
        0x0 => match kk {
            0xE0 => Some(Instruction::ClearScreen),
            0xEE => Some(Instruction::Return),
            _ => None,
        },
        0x1 => Some(Instruction::Jump { addr }),
        0x2 => Some(Instruction::Call { addr }),
        0x3 => Some(Instruction::SkipEqImm { x, kk }),
        0x4 => Some(Instruction::SkipNeImm { x, kk }),
        0x5 => Some(Instruction::SkipEqReg { x, y }),
        0x6 => Some(Instruction::LoadImm { x, kk }),
        0x7 => Some(Instruction::AddImm { x, kk }),
        0x8 => match n {
            0x0 => Some(Instruction::Move { x, y }),
            0x1 => Some(Instruction::Or { x, y }),
            0x2 => Some(Instruction::And { x, y }),
            0x3 => Some(Instruction::Xor { x, y }),
            0x4 => Some(Instruction::AddReg { x, y }),
            0x5 => Some(Instruction::SubReg { x, y }),
            0x6 => Some(Instruction::ShiftRight { x }),
            0x7 => Some(Instruction::SubRev { x, y }),
            0xE => Some(Instruction::ShiftLeft { x }),
            _ => None,
        },
        0x9 => Some(Instruction::SkipNeReg { x, y }),
        0xA => Some(Instruction::LoadIndex { addr }),
        0xB => Some(Instruction::JumpOffset { addr }),
        0xC => Some(Instruction::Random { x, kk }),
        0xD => Some(Instruction::Draw { x, y, n }),
        0xE => match kk {
            0x9E => Some(Instruction::SkipKeyPressed { x }),
            0xA1 => Some(Instruction::SkipKeyReleased { x }),
            _ => None,
        },
        _ => match kk {
            0x07 => Some(Instruction::LoadDelay { x }),
            0x0A => Some(Instruction::WaitKey { x }),
            0x15 => Some(Instruction::SetDelay { x }),
            0x18 => Some(Instruction::SetSound { x }),
            0x1E => Some(Instruction::AddIndex { x }),
            0x29 => Some(Instruction::LoadGlyph { x }),
            0x33 => Some(Instruction::StoreBcd { x }),
            0x55 => Some(Instruction::StoreRegs { x }),
            0x65 => Some(Instruction::LoadRegs { x }),
            _ => None,
        },
    }
}

} // verus!
