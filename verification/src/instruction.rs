//! The instruction set and its decoder.

use vstd::prelude::*;

verus! {

/// One decoded instruction. `x` and `y` name registers, `kk` is an immediate
/// byte, `nnn` an address of twelve bits and `n` a nibble.
#[derive(Clone, Copy, Debug, PartialEq, Eq, Structural)]
pub enum Instruction {
    /// `00Cn`: scroll the display `n` rows down.
    ScrollDown { n: usize },
    /// `00E0`: clear the display.
    Cls,
    /// `00EE`: return from a subroutine.
    Ret,
    /// `00FB`: scroll the display four pixels to the right.
    ScrollRight,
    /// `00FC`: scroll the display four pixels to the left.
    ScrollLeft,
    /// `00FD`: stop the interpreter.
    Exit,
    /// `00FE`: switch to the standard resolution.
    Low,
    /// `00FF`: switch to the extended resolution.
    High,
    /// `1nnn`: jump to `nnn`.
    Jump { nnn: u16 },
    /// `2nnn`: call the subroutine at `nnn`.
    Call { nnn: u16 },
    /// `3xkk`: skip the next instruction if Vx equals `kk`.
    SkipEqByte { x: usize, kk: u8 },
    /// `4xkk`: skip the next instruction if Vx differs from `kk`.
    SkipNeByte { x: usize, kk: u8 },
    /// `5xy0`: skip the next instruction if Vx equals Vy.
    SkipEqReg { x: usize, y: usize },
    /// `6xkk`: set Vx to `kk`.
    LoadByte { x: usize, kk: u8 },
    /// `7xkk`: add `kk` to Vx, wrapping, without touching VF.
    AddByte { x: usize, kk: u8 },
    /// `8xy0`: copy Vy to Vx.
    Move { x: usize, y: usize },
    /// `8xy1`: bitwise or of Vx and Vy into Vx.
    Or { x: usize, y: usize },
    /// `8xy2`: bitwise and of Vx and Vy into Vx.
    And { x: usize, y: usize },
    /// `8xy3`: bitwise exclusive or of Vx and Vy into Vx.
    Xor { x: usize, y: usize },
    /// `8xy4`: add Vy to Vx; VF tells whether the sum left eight bits.
    Add { x: usize, y: usize },
    /// `8xy5`: subtract Vy from Vx; VF tells that there was no borrow.
    Sub { x: usize, y: usize },
    /// `8xy6`: shift right by one; VF takes the bit that leaves.
    ShiftRight { x: usize, y: usize },
    /// `8xy7`: set Vx to Vy minus Vx; VF tells that there was no borrow.
    SubReverse { x: usize, y: usize },
    /// `8xyE`: shift left by one; VF takes the bit that leaves.
    ShiftLeft { x: usize, y: usize },
    /// `9xy0`: skip the next instruction if Vx differs from Vy.
    SkipNeReg { x: usize, y: usize },
    /// `Annn`: set the index register to `nnn`.
    LoadIndex { nnn: u16 },
    /// `Bnnn`: jump to `nnn` plus a register.
    JumpOffset { nnn: u16 },
    /// `Cxkk`: set Vx to a random byte masked with `kk`.
    Random { x: usize, kk: u8 },
    /// `Dxyn`: draw a sprite at (Vx, Vy); `n` is its height, zero for the
    /// large sprite.
    Draw { x: usize, y: usize, n: usize },
    /// `Ex9E`: skip the next instruction if the key named by Vx is down.
    SkipKey { x: usize },
    /// `ExA1`: skip the next instruction if the key named by Vx is up.
    SkipNoKey { x: usize },
    /// `Fx07`: copy the delay timer to Vx.
    ReadDelay { x: usize },
    /// `Fx0A`: wait for a key and store its number in Vx.
    WaitKey { x: usize },
    /// `Fx15`: set the delay timer to Vx.
    SetDelay { x: usize },
    /// `Fx18`: set the sound timer to Vx.
    SetSound { x: usize },
    /// `Fx1E`: add Vx to the index register.
    AddIndex { x: usize },
    /// `Fx29`: point the index register at the small glyph for Vx.
    FontAddress { x: usize },
    /// `Fx30`: point the index register at the large glyph for Vx.
    BigFontAddress { x: usize },
    /// `Fx33`: store the three decimal digits of Vx at the index register.
    StoreBcd { x: usize },
    /// `Fx55`: store V0 to Vx at the index register.
    StoreRegisters { x: usize },
    /// `Fx65`: load V0 to Vx from the index register.
    LoadRegisters { x: usize },
    /// `Fx75`: save V0 to Vx in the persistent flag registers.
    StoreFlags { x: usize },
    /// `Fx85`: load V0 to Vx from the persistent flag registers.
    LoadFlags { x: usize },
    /// A word that names no instruction.
    Unknown { opcode: u16 },
}

/// The highest nibble of an instruction word: bits 12 to 15.
pub open spec fn nibble0(opcode: u16) -> int {
    opcode as int / 0x1000
}

/// The operand `x`: bits 8 to 11.
pub open spec fn operand_x(opcode: u16) -> int {
    (opcode as int / 0x100) % 16
}

/// The operand `y`: bits 4 to 7.
pub open spec fn operand_y(opcode: u16) -> int {
    (opcode as int / 0x10) % 16
}

/// The operand `n`: the lowest nibble.
pub open spec fn operand_n(opcode: u16) -> int {
    opcode as int % 16
}

/// The operand `kk`: the low byte.
pub open spec fn operand_kk(opcode: u16) -> int {
    opcode as int % 0x100
}

/// The operand `nnn`: the low twelve bits.
pub open spec fn operand_nnn(opcode: u16) -> int {
    opcode as int % 0x1000
}

/// The instruction that an instruction word stands for.
pub open spec fn decode_spec(opcode: u16) -> Instruction {
    let x = operand_x(opcode) as usize;
    let y = operand_y(opcode) as usize;
    let n = operand_n(opcode);
    let kk = operand_kk(opcode) as u8;
    let nnn = operand_nnn(opcode) as u16;
    let top = nibble0(opcode);
    if top == 0x0 {
        if x == 0 && y == 0xC {
            Instruction::ScrollDown { n: n as usize }
        } else if opcode == 0x00E0 {
            Instruction::Cls
        } else if opcode == 0x00EE {
            Instruction::Ret
        } else if opcode == 0x00FB {
            Instruction::ScrollRight
        } else if opcode == 0x00FC {
            Instruction::ScrollLeft
        } else if opcode == 0x00FD {
            Instruction::Exit
        } else if opcode == 0x00FE {
            Instruction::Low
        } else if opcode == 0x00FF {
            Instruction::High
        } else {
            Instruction::Unknown { opcode }
        }
    } else if top == 0x1 {
        Instruction::Jump { nnn }
    } else if top == 0x2 {
        Instruction::Call { nnn }
    } else if top == 0x3 {
        Instruction::SkipEqByte { x, kk }
    } else if top == 0x4 {
        Instruction::SkipNeByte { x, kk }
    } else if top == 0x5 {
        if n == 0 {
            Instruction::SkipEqReg { x, y }
        } else {
            Instruction::Unknown { opcode }
        }
    } else if top == 0x6 {
        Instruction::LoadByte { x, kk }
    } else if top == 0x7 {
        Instruction::AddByte { x, kk }
    } else if top == 0x8 {
        if n == 0x0 {
            Instruction::Move { x, y }
        } else if n == 0x1 {
            Instruction::Or { x, y }
        } else if n == 0x2 {
            Instruction::And { x, y }
        } else if n == 0x3 {
            Instruction::Xor { x, y }
        } else if n == 0x4 {
            Instruction::Add { x, y }
        } else if n == 0x5 {
            Instruction::Sub { x, y }
        } else if n == 0x6 {
            Instruction::ShiftRight { x, y }
        } else if n == 0x7 {
            Instruction::SubReverse { x, y }
        } else if n == 0xE {
            Instruction::ShiftLeft { x, y }
        } else {
            Instruction::Unknown { opcode }
        }
    } else if top == 0x9 {
        if n == 0 {
            Instruction::SkipNeReg { x, y }
        } else {
            Instruction::Unknown { opcode }
        }
    } else if top == 0xA {
        Instruction::LoadIndex { nnn }
    } else if top == 0xB {
        Instruction::JumpOffset { nnn }
    } else if top == 0xC {
        Instruction::Random { x, kk }
    } else if top == 0xD {
        Instruction::Draw { x, y, n: n as usize }
    } else if top == 0xE {
        if kk == 0x9E {
            Instruction::SkipKey { x }
        } else if kk == 0xA1 {
            Instruction::SkipNoKey { x }
        } else {
            Instruction::Unknown { opcode }
        }
    } else {
        if kk == 0x07 {
            Instruction::ReadDelay { x }
        } else if kk == 0x0A {
            Instruction::WaitKey { x }
        } else if kk == 0x15 {
            Instruction::SetDelay { x }
        } else if kk == 0x18 {
            Instruction::SetSound { x }
        } else if kk == 0x1E {
            Instruction::AddIndex { x }
        } else if kk == 0x29 {
            Instruction::FontAddress { x }
        } else if kk == 0x30 {
            Instruction::BigFontAddress { x }
        } else if kk == 0x33 {
            Instruction::StoreBcd { x }
        } else if kk == 0x55 {
            Instruction::StoreRegisters { x }
        } else if kk == 0x65 {
            Instruction::LoadRegisters { x }
        } else if kk == 0x75 && x < 8 {
            Instruction::StoreFlags { x }
        } else if kk == 0x85 && x < 8 {
            Instruction::LoadFlags { x }
        } else {
            Instruction::Unknown { opcode }
        }
    }
}

impl Instruction {
    /// Every operand lies in the range that its place in the instruction
    /// word allows.
    pub open spec fn wf(self) -> bool {
        match self {
            Instruction::ScrollDown { n } => n < 16,
            Instruction::Jump { nnn } => nnn < 0x1000,
            Instruction::Call { nnn } => nnn < 0x1000,
            Instruction::SkipEqByte { x, kk } => x < 16,
            Instruction::SkipNeByte { x, kk } => x < 16,
            Instruction::SkipEqReg { x, y } => x < 16 && y < 16,
            Instruction::LoadByte { x, kk } => x < 16,
            Instruction::AddByte { x, kk } => x < 16,
            Instruction::Move { x, y } => x < 16 && y < 16,
            Instruction::Or { x, y } => x < 16 && y < 16,
            Instruction::And { x, y } => x < 16 && y < 16,
            Instruction::Xor { x, y } => x < 16 && y < 16,
            Instruction::Add { x, y } => x < 16 && y < 16,
            Instruction::Sub { x, y } => x < 16 && y < 16,
            Instruction::ShiftRight { x, y } => x < 16 && y < 16,
            Instruction::SubReverse { x, y } => x < 16 && y < 16,
            Instruction::ShiftLeft { x, y } => x < 16 && y < 16,
            Instruction::SkipNeReg { x, y } => x < 16 && y < 16,
            Instruction::LoadIndex { nnn } => nnn < 0x1000,
            Instruction::JumpOffset { nnn } => nnn < 0x1000,
            Instruction::Random { x, kk } => x < 16,
            Instruction::Draw { x, y, n } => x < 16 && y < 16 && n < 16,
            Instruction::SkipKey { x } => x < 16,
            Instruction::SkipNoKey { x } => x < 16,
            Instruction::ReadDelay { x } => x < 16,
            Instruction::WaitKey { x } => x < 16,
            Instruction::SetDelay { x } => x < 16,
            Instruction::SetSound { x } => x < 16,
            Instruction::AddIndex { x } => x < 16,
            Instruction::FontAddress { x } => x < 16,
            Instruction::BigFontAddress { x } => x < 16,
            Instruction::StoreBcd { x } => x < 16,
            Instruction::StoreRegisters { x } => x < 16,
            Instruction::LoadRegisters { x } => x < 16,
            Instruction::StoreFlags { x } => x < 8,
            Instruction::LoadFlags { x } => x < 8,
            _ => true,
        }
    }
}

/// Splits an instruction word into its fields and names the instruction. A
/// word outside the instruction set comes back as `Unknown`, with the word
/// in it.
pub fn decode(opcode: u16) -> (instruction: Instruction)
    ensures
        instruction == decode_spec(opcode),
        instruction.wf(),
{
    let top: u16 = opcode / 0x1000;
    let x: usize = ((opcode / 0x100) % 16) as usize;
    let y: usize = ((opcode / 0x10) % 16) as usize;
    let n: usize = (opcode % 16) as usize;
    let kk: u8 = (opcode % 0x100) as u8;
    let nnn: u16 = opcode % 0x1000;
    match top {
        0x0 => {
            if x == 0 && y == 0xC {
                Instruction::ScrollDown { n }
            } else {
                match opcode {
                    0x00E0 => Instruction::Cls,
                    0x00EE => Instruction::Ret,
                    0x00FB => Instruction::ScrollRight,
                    0x00FC => Instruction::ScrollLeft,
                    0x00FD => Instruction::Exit,
                    0x00FE => Instruction::Low,
                    0x00FF => Instruction::High,
                    _ => Instruction::Unknown { opcode },
                }
            }
        },
        0x1 => Instruction::Jump { nnn },
        0x2 => Instruction::Call { nnn },
        0x3 => Instruction::SkipEqByte { x, kk },
        0x4 => Instruction::SkipNeByte { x, kk },
        0x5 => {
            if n == 0 {
                Instruction::SkipEqReg { x, y }
            } else {
                Instruction::Unknown { opcode }
            }
        },
        0x6 => Instruction::LoadByte { x, kk },
        0x7 => Instruction::AddByte { x, kk },
        0x8 => match n {
            0x0 => Instruction::Move { x, y },
            0x1 => Instruction::Or { x, y },
            0x2 => Instruction::And { x, y },
            0x3 => Instruction::Xor { x, y },
            0x4 => Instruction::Add { x, y },
            0x5 => Instruction::Sub { x, y },
            0x6 => Instruction::ShiftRight { x, y },
            0x7 => Instruction::SubReverse { x, y },
            0xE => Instruction::ShiftLeft { x, y },
            _ => Instruction::Unknown { opcode },
        },
        0x9 => {
            if n == 0 {
                Instruction::SkipNeReg { x, y }
            } else {
                Instruction::Unknown { opcode }
            }
        },
        0xA => Instruction::LoadIndex { nnn },
        0xB => Instruction::JumpOffset { nnn },
        0xC => Instruction::Random { x, kk },
        0xD => Instruction::Draw { x, y, n },
        0xE => match kk {
            0x9E => Instruction::SkipKey { x },
            0xA1 => Instruction::SkipNoKey { x },
            _ => Instruction::Unknown { opcode },
        },
        _ => match kk {
            0x07 => Instruction::ReadDelay { x },
            0x0A => Instruction::WaitKey { x },
            0x15 => Instruction::SetDelay { x },
            0x18 => Instruction::SetSound { x },
            0x1E => Instruction::AddIndex { x },
            0x29 => Instruction::FontAddress { x },
            0x30 => Instruction::BigFontAddress { x },
            0x33 => Instruction::StoreBcd { x },
            0x55 => Instruction::StoreRegisters { x },
            0x65 => Instruction::LoadRegisters { x },
            0x75 => {
                if x < 8 {
                    Instruction::StoreFlags { x }
                } else {
                    Instruction::Unknown { opcode }
                }
            },
            0x85 => {
                if x < 8 {
                    Instruction::LoadFlags { x }
                } else {
                    Instruction::Unknown { opcode }
                }
            },
            _ => Instruction::Unknown { opcode },
        },
    }
}

/// The word for an instruction with the operands `x` and `kk`.
pub open spec fn word_xkk(top: int, x: usize, kk: u8) -> u16 {
    (top * 0x1000 + x * 0x100 + kk) as u16
}

/// The word for an instruction with the operands `x`, `y` and `n`.
pub open spec fn word_xyn(top: int, x: usize, y: usize, n: int) -> u16 {
    (top * 0x1000 + x * 0x100 + y * 0x10 + n) as u16
}

/// The word for an instruction with the operand `nnn`.
pub open spec fn word_nnn(top: int, nnn: u16) -> u16 {
    (top * 0x1000 + nnn) as u16
}

/// The instruction word that stands for `instruction`.
pub open spec fn encode_spec(instruction: Instruction) -> u16 {
    match instruction {
        Instruction::ScrollDown { n } => word_xyn(0x0, 0, 0xC, n as int),
        Instruction::Cls => 0x00E0,
        Instruction::Ret => 0x00EE,
        Instruction::ScrollRight => 0x00FB,
        Instruction::ScrollLeft => 0x00FC,
        Instruction::Exit => 0x00FD,
        Instruction::Low => 0x00FE,
        Instruction::High => 0x00FF,
        Instruction::Jump { nnn } => word_nnn(0x1, nnn),
        Instruction::Call { nnn } => word_nnn(0x2, nnn),
        Instruction::SkipEqByte { x, kk } => word_xkk(0x3, x, kk),
        Instruction::SkipNeByte { x, kk } => word_xkk(0x4, x, kk),
        Instruction::SkipEqReg { x, y } => word_xyn(0x5, x, y, 0x0),
        Instruction::LoadByte { x, kk } => word_xkk(0x6, x, kk),
        Instruction::AddByte { x, kk } => word_xkk(0x7, x, kk),
        Instruction::Move { x, y } => word_xyn(0x8, x, y, 0x0),
        Instruction::Or { x, y } => word_xyn(0x8, x, y, 0x1),
        Instruction::And { x, y } => word_xyn(0x8, x, y, 0x2),
        Instruction::Xor { x, y } => word_xyn(0x8, x, y, 0x3),
        Instruction::Add { x, y } => word_xyn(0x8, x, y, 0x4),
        Instruction::Sub { x, y } => word_xyn(0x8, x, y, 0x5),
        Instruction::ShiftRight { x, y } => word_xyn(0x8, x, y, 0x6),
        Instruction::SubReverse { x, y } => word_xyn(0x8, x, y, 0x7),
        Instruction::ShiftLeft { x, y } => word_xyn(0x8, x, y, 0xE),
        Instruction::SkipNeReg { x, y } => word_xyn(0x9, x, y, 0x0),
        Instruction::LoadIndex { nnn } => word_nnn(0xA, nnn),
        Instruction::JumpOffset { nnn } => word_nnn(0xB, nnn),
        Instruction::Random { x, kk } => word_xkk(0xC, x, kk),
        Instruction::Draw { x, y, n } => word_xyn(0xD, x, y, n as int),
        Instruction::SkipKey { x } => word_xkk(0xE, x, 0x9E),
        Instruction::SkipNoKey { x } => word_xkk(0xE, x, 0xA1),
        Instruction::ReadDelay { x } => word_xkk(0xF, x, 0x07),
        Instruction::WaitKey { x } => word_xkk(0xF, x, 0x0A),
        Instruction::SetDelay { x } => word_xkk(0xF, x, 0x15),
        Instruction::SetSound { x } => word_xkk(0xF, x, 0x18),
        Instruction::AddIndex { x } => word_xkk(0xF, x, 0x1E),
        Instruction::FontAddress { x } => word_xkk(0xF, x, 0x29),
        Instruction::BigFontAddress { x } => word_xkk(0xF, x, 0x30),
        Instruction::StoreBcd { x } => word_xkk(0xF, x, 0x33),
        Instruction::StoreRegisters { x } => word_xkk(0xF, x, 0x55),
        Instruction::LoadRegisters { x } => word_xkk(0xF, x, 0x65),
        Instruction::StoreFlags { x } => word_xkk(0xF, x, 0x75),
        Instruction::LoadFlags { x } => word_xkk(0xF, x, 0x85),
        Instruction::Unknown { opcode } => opcode,
    }
}

impl Instruction {
    /// The instruction word that stands for this instruction.
    pub fn encode(&self) -> (opcode: u16)
        requires
            self.wf(),
        ensures
            opcode == encode_spec(*self),
    {
        match *self {
            Instruction::ScrollDown { n } => 0x00C0 + n as u16,
            Instruction::Cls => 0x00E0,
            Instruction::Ret => 0x00EE,
            Instruction::ScrollRight => 0x00FB,
            Instruction::ScrollLeft => 0x00FC,
            Instruction::Exit => 0x00FD,
            Instruction::Low => 0x00FE,
            Instruction::High => 0x00FF,
            Instruction::Jump { nnn } => 0x1000 + nnn,
            Instruction::Call { nnn } => 0x2000 + nnn,
            Instruction::SkipEqByte { x, kk } => 0x3000 + x as u16 * 0x100 + kk as u16,
            Instruction::SkipNeByte { x, kk } => 0x4000 + x as u16 * 0x100 + kk as u16,
            Instruction::SkipEqReg { x, y } => 0x5000 + x as u16 * 0x100 + y as u16 * 0x10,
            Instruction::LoadByte { x, kk } => 0x6000 + x as u16 * 0x100 + kk as u16,
            Instruction::AddByte { x, kk } => 0x7000 + x as u16 * 0x100 + kk as u16,
            Instruction::Move { x, y } => 0x8000 + x as u16 * 0x100 + y as u16 * 0x10,
            Instruction::Or { x, y } => 0x8001 + x as u16 * 0x100 + y as u16 * 0x10,
            Instruction::And { x, y } => 0x8002 + x as u16 * 0x100 + y as u16 * 0x10,
            Instruction::Xor { x, y } => 0x8003 + x as u16 * 0x100 + y as u16 * 0x10,
            Instruction::Add { x, y } => 0x8004 + x as u16 * 0x100 + y as u16 * 0x10,
            Instruction::Sub { x, y } => 0x8005 + x as u16 * 0x100 + y as u16 * 0x10,
            Instruction::ShiftRight { x, y } => 0x8006 + x as u16 * 0x100 + y as u16 * 0x10,
            Instruction::SubReverse { x, y } => 0x8007 + x as u16 * 0x100 + y as u16 * 0x10,
            Instruction::ShiftLeft { x, y } => 0x800E + x as u16 * 0x100 + y as u16 * 0x10,
            Instruction::SkipNeReg { x, y } => 0x9000 + x as u16 * 0x100 + y as u16 * 0x10,
            Instruction::LoadIndex { nnn } => 0xA000 + nnn,
            Instruction::JumpOffset { nnn } => 0xB000 + nnn,
            Instruction::Random { x, kk } => 0xC000 + x as u16 * 0x100 + kk as u16,
            Instruction::Draw { x, y, n } => 0xD000 + x as u16 * 0x100 + y as u16 * 0x10 + n as u16,
            Instruction::SkipKey { x } => 0xE09E + x as u16 * 0x100,
            Instruction::SkipNoKey { x } => 0xE0A1 + x as u16 * 0x100,
            Instruction::ReadDelay { x } => 0xF007 + x as u16 * 0x100,
            Instruction::WaitKey { x } => 0xF00A + x as u16 * 0x100,
            Instruction::SetDelay { x } => 0xF015 + x as u16 * 0x100,
            Instruction::SetSound { x } => 0xF018 + x as u16 * 0x100,
            Instruction::AddIndex { x } => 0xF01E + x as u16 * 0x100,
            Instruction::FontAddress { x } => 0xF029 + x as u16 * 0x100,
            Instruction::BigFontAddress { x } => 0xF030 + x as u16 * 0x100,
            Instruction::StoreBcd { x } => 0xF033 + x as u16 * 0x100,
            Instruction::StoreRegisters { x } => 0xF055 + x as u16 * 0x100,
            Instruction::LoadRegisters { x } => 0xF065 + x as u16 * 0x100,
            Instruction::StoreFlags { x } => 0xF075 + x as u16 * 0x100,
            Instruction::LoadFlags { x } => 0xF085 + x as u16 * 0x100,
            Instruction::Unknown { opcode } => opcode,
        }
    }
}

/// The fields of a word that was put together from `x` and `kk`.
pub proof fn lemma_word_xkk(top: int, x: usize, kk: u8)
    requires
        0 <= top < 16,
        x < 16,
    ensures
        nibble0(word_xkk(top, x, kk)) == top,
        operand_x(word_xkk(top, x, kk)) == x,
        operand_kk(word_xkk(top, x, kk)) == kk,
        operand_y(word_xkk(top, x, kk)) == kk / 16,
        operand_n(word_xkk(top, x, kk)) == kk % 16,
{
}

/// The fields of a word that was put together from `x`, `y` and `n`.
pub proof fn lemma_word_xyn(top: int, x: usize, y: usize, n: int)
    requires
        0 <= top < 16,
        x < 16,
        y < 16,
        0 <= n < 16,
    ensures
        nibble0(word_xyn(top, x, y, n)) == top,
        operand_x(word_xyn(top, x, y, n)) == x,
        operand_y(word_xyn(top, x, y, n)) == y,
        operand_n(word_xyn(top, x, y, n)) == n,
        operand_kk(word_xyn(top, x, y, n)) == y * 16 + n,
        word_xyn(top, x, y, n) == top * 0x1000 + x * 0x100 + y * 0x10 + n,
{
    let low = y * 0x10 + n;
    let word = top * 0x1000 + x * 0x100 + low;
    assert(0 <= low < 0x100);
    assert(0 <= word < 0x1_0000);
    assert(word / 0x1000 == top);
    assert(word / 0x100 == top * 16 + x);
    assert(word / 0x10 == top * 256 + x * 16 + y);
    assert(word % 0x100 == low);
    assert(word % 0x10 == n);
}

/// The fields of a word that was put together from `nnn`.
pub proof fn lemma_word_nnn(top: int, nnn: u16)
    requires
        0 <= top < 16,
        nnn < 0x1000,
    ensures
        nibble0(word_nnn(top, nnn)) == top,
        operand_nnn(word_nnn(top, nnn)) == nnn,
{
}

/// A word is put together from its fields.
pub proof fn lemma_word_fields(opcode: u16)
    ensures
        0 <= nibble0(opcode) < 16,
        0 <= operand_x(opcode) < 16,
        0 <= operand_y(opcode) < 16,
        0 <= operand_n(opcode) < 16,
        0 <= operand_kk(opcode) < 0x100,
        0 <= operand_nnn(opcode) < 0x1000,
        opcode == word_xkk(nibble0(opcode), operand_x(opcode) as usize, operand_kk(opcode) as u8),
        opcode == word_xyn(
            nibble0(opcode),
            operand_x(opcode) as usize,
            operand_y(opcode) as usize,
            operand_n(opcode),
        ),
        opcode == word_nnn(nibble0(opcode), operand_nnn(opcode) as u16),
        operand_kk(opcode) == operand_y(opcode) * 16 + operand_n(opcode),
{
}

/// Decoding takes encoding back: every instruction with operands in range
/// is what its own word decodes to.
pub proof fn law_decode_inverts_encode(instruction: Instruction)
    requires
        instruction.wf(),
        !(instruction is Unknown),
    ensures
        decode_spec(encode_spec(instruction)) == instruction,
{
    match instruction {
        Instruction::ScrollDown { n } => lemma_word_xyn(0x0, 0, 0xC, n as int),
        Instruction::Jump { nnn } => lemma_word_nnn(0x1, nnn),
        Instruction::Call { nnn } => lemma_word_nnn(0x2, nnn),
        Instruction::SkipEqByte { x, kk } => lemma_word_xkk(0x3, x, kk),
        Instruction::SkipNeByte { x, kk } => lemma_word_xkk(0x4, x, kk),
        Instruction::SkipEqReg { x, y } => lemma_word_xyn(0x5, x, y, 0x0),
        Instruction::LoadByte { x, kk } => lemma_word_xkk(0x6, x, kk),
        Instruction::AddByte { x, kk } => lemma_word_xkk(0x7, x, kk),
        Instruction::Move { x, y } => lemma_word_xyn(0x8, x, y, 0x0),
        Instruction::Or { x, y } => lemma_word_xyn(0x8, x, y, 0x1),
        Instruction::And { x, y } => lemma_word_xyn(0x8, x, y, 0x2),
        Instruction::Xor { x, y } => lemma_word_xyn(0x8, x, y, 0x3),
        Instruction::Add { x, y } => lemma_word_xyn(0x8, x, y, 0x4),
        Instruction::Sub { x, y } => lemma_word_xyn(0x8, x, y, 0x5),
        Instruction::ShiftRight { x, y } => lemma_word_xyn(0x8, x, y, 0x6),
        Instruction::SubReverse { x, y } => lemma_word_xyn(0x8, x, y, 0x7),
        Instruction::ShiftLeft { x, y } => lemma_word_xyn(0x8, x, y, 0xE),
        Instruction::SkipNeReg { x, y } => lemma_word_xyn(0x9, x, y, 0x0),
        Instruction::LoadIndex { nnn } => lemma_word_nnn(0xA, nnn),
        Instruction::JumpOffset { nnn } => lemma_word_nnn(0xB, nnn),
        Instruction::Random { x, kk } => lemma_word_xkk(0xC, x, kk),
        Instruction::Draw { x, y, n } => lemma_word_xyn(0xD, x, y, n as int),
        Instruction::SkipKey { x } => lemma_word_xkk(0xE, x, 0x9E),
        Instruction::SkipNoKey { x } => lemma_word_xkk(0xE, x, 0xA1),
        Instruction::ReadDelay { x } => lemma_word_xkk(0xF, x, 0x07),
        Instruction::WaitKey { x } => lemma_word_xkk(0xF, x, 0x0A),
        Instruction::SetDelay { x } => lemma_word_xkk(0xF, x, 0x15),
        Instruction::SetSound { x } => lemma_word_xkk(0xF, x, 0x18),
        Instruction::AddIndex { x } => lemma_word_xkk(0xF, x, 0x1E),
        Instruction::FontAddress { x } => lemma_word_xkk(0xF, x, 0x29),
        Instruction::BigFontAddress { x } => lemma_word_xkk(0xF, x, 0x30),
        Instruction::StoreBcd { x } => lemma_word_xkk(0xF, x, 0x33),
        Instruction::StoreRegisters { x } => lemma_word_xkk(0xF, x, 0x55),
        Instruction::LoadRegisters { x } => lemma_word_xkk(0xF, x, 0x65),
        Instruction::StoreFlags { x } => lemma_word_xkk(0xF, x, 0x75),
        Instruction::LoadFlags { x } => lemma_word_xkk(0xF, x, 0x85),
        _ => {},
    }
}

/// Encoding takes decoding back: every word is the word of what it decodes
/// to. So no two words stand for the same instruction.
pub proof fn law_encode_inverts_decode(opcode: u16)
    ensures
        encode_spec(decode_spec(opcode)) == opcode,
{
    lemma_word_fields(opcode);
    let top = nibble0(opcode);
    let x = operand_x(opcode);
    let y = operand_y(opcode);
    let n = operand_n(opcode);
    let kk = operand_kk(opcode);
    if top == 0x0 {
        if x == 0 && y == 0xC {
            assert(encode_spec(decode_spec(opcode)) == opcode);
        } else {
            assert(encode_spec(decode_spec(opcode)) == opcode);
        }
    } else if top == 0x5 || top == 0x9 {
        assert(encode_spec(decode_spec(opcode)) == opcode);
    } else if top == 0x8 {
        assert(encode_spec(decode_spec(opcode)) == opcode);
    } else if top == 0xE {
        assert(encode_spec(decode_spec(opcode)) == opcode);
    } else if top == 0xF {
        assert(encode_spec(decode_spec(opcode)) == opcode);
    } else {
        assert(encode_spec(decode_spec(opcode)) == opcode);
    }
}

/// The fields of an instruction word are its bits: `x` bits 8 to 11, `y`
/// bits 4 to 7, `n` the lowest four, `kk` the lowest eight and `nnn` the
/// lowest twelve.
pub proof fn law_operands_are_bit_fields(opcode: u16)
    ensures
        nibble0(opcode) == opcode >> 12u16,
        operand_x(opcode) == (opcode >> 8u16) & 0xF,
        operand_y(opcode) == (opcode >> 4u16) & 0xF,
        operand_n(opcode) == opcode & 0xF,
        operand_kk(opcode) == opcode & 0xFF,
        operand_nnn(opcode) == opcode & 0xFFF,
{
    assert(opcode / 0x1000 == opcode >> 12u16) by (bit_vector);
    assert((opcode / 0x100) % 16 == (opcode >> 8u16) & 0xF) by (bit_vector);
    assert((opcode / 0x10) % 16 == (opcode >> 4u16) & 0xF) by (bit_vector);
    assert(opcode % 16 == opcode & 0xF) by (bit_vector);
    assert(opcode % 0x100 == opcode & 0xFF) by (bit_vector);
    assert(opcode % 0x1000 == opcode & 0xFFF) by (bit_vector);
}

} // verus!
