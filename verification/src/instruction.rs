use vstd::prelude::*;

verus! {

/// A decoded instruction. `x` and `y` name registers, `n` is a sprite height,
/// `kk` an immediate byte and `nnn` a 12-bit address.
#[derive(Clone, Copy, Debug, PartialEq, Eq)]
pub enum Instruction {
    /// 00E0
    ClearScreen,
    /// 00EE
    Return,
    /// 1NNN
    Jump { nnn: u16 },
    /// 2NNN
    Call { nnn: u16 },
    /// 3XKK
    SkipEqualImmediate { x: u8, kk: u8 },
    /// 4XKK
    SkipNotEqualImmediate { x: u8, kk: u8 },
    /// 5XY0
    SkipEqual { x: u8, y: u8 },
    /// 6XKK
    LoadImmediate { x: u8, kk: u8 },
    /// 7XKK
    AddImmediate { x: u8, kk: u8 },
    /// 8XY0
    Move { x: u8, y: u8 },
    /// 8XY1
    Or { x: u8, y: u8 },
    /// 8XY2
    And { x: u8, y: u8 },
    /// 8XY3
    Xor { x: u8, y: u8 },
    /// 8XY4
    Add { x: u8, y: u8 },
    /// 8XY5
    Subtract { x: u8, y: u8 },
    /// 8XY6
    ShiftRight { x: u8 },
    /// 8XY7
    SubtractReversed { x: u8, y: u8 },
    /// 8XYE
    ShiftLeft { x: u8 },
    /// 9XY0
    SkipNotEqual { x: u8, y: u8 },
    /// ANNN
    LoadIndex { nnn: u16 },
    /// BNNN
    JumpOffset { nnn: u16 },
    /// CXKK
    Random { x: u8, kk: u8 },
    /// DXYN
    Draw { x: u8, y: u8, n: u8 },
    /// EX9E
    SkipIfPressed { x: u8 },
    /// EXA1
    SkipIfNotPressed { x: u8 },
    /// FX07
    LoadDelayTimer { x: u8 },
    /// FX0A
    WaitForKey { x: u8 },
    /// FX15
    SetDelayTimer { x: u8 },
    /// FX18
    SetSoundTimer { x: u8 },
    /// FX1E
    AddToIndex { x: u8 },
    /// FX29
    LoadGlyphAddress { x: u8 },
    /// FX33
    StoreDecimal { x: u8 },
    /// FX55
    StoreRegisters { x: u8 },
    /// FX65
    LoadRegisters { x: u8 },
    /// Any other word: executed as a no-op.
    Unknown,
}

impl Instruction {
    /// The instruction that a word encodes. The word's four hexadecimal
    /// digits select it; `x`, `y` and `n` are the second, third and fourth
    /// digit, `kk` the low byte and `nnn` the low three digits.
    pub open spec fn decode_spec(opcode: u16) -> Instruction {
        let class = opcode / 0x1000;
        let x = ((opcode / 0x100) % 0x10) as u8;
        let y = ((opcode / 0x10) % 0x10) as u8;
        let n = (opcode % 0x10) as u8;
        let kk = (opcode % 0x100) as u8;
        let nnn = (opcode % 0x1000) as u16;
        if opcode == 0x00E0 {
            Instruction::ClearScreen
        } else if opcode == 0x00EE {
            Instruction::Return
        } else if class == 0x1 {
            Instruction::Jump { nnn }
        } else if class == 0x2 {
            Instruction::Call { nnn }
        } else if class == 0x3 {
            Instruction::SkipEqualImmediate { x, kk }
        } else if class == 0x4 {
            Instruction::SkipNotEqualImmediate { x, kk }
        } else if class == 0x5 && n == 0x0 {
            Instruction::SkipEqual { x, y }
        } else if class == 0x6 {
            Instruction::LoadImmediate { x, kk }
        } else if class == 0x7 {
            Instruction::AddImmediate { x, kk }
        } else if class == 0x8 && n == 0x0 {
            Instruction::Move { x, y }
        } else if class == 0x8 && n == 0x1 {
            Instruction::Or { x, y }
        } else if class == 0x8 && n == 0x2 {
            Instruction::And { x, y }
        } else if class == 0x8 && n == 0x3 {
            Instruction::Xor { x, y }
        } else if class == 0x8 && n == 0x4 {
            Instruction::Add { x, y }
        } else if class == 0x8 && n == 0x5 {
            Instruction::Subtract { x, y }
        } else if class == 0x8 && n == 0x6 {
            Instruction::ShiftRight { x }
        } else if class == 0x8 && n == 0x7 {
            Instruction::SubtractReversed { x, y }
        } else if class == 0x8 && n == 0xE {
            Instruction::ShiftLeft { x }
        } else if class == 0x9 && n == 0x0 {
            Instruction::SkipNotEqual { x, y }
        } else if class == 0xA {
            Instruction::LoadIndex { nnn }
        } else if class == 0xB {
            Instruction::JumpOffset { nnn }
        } else if class == 0xC {
            Instruction::Random { x, kk }
        } else if class == 0xD {
            Instruction::Draw { x, y, n }
        } else if class == 0xE && kk == 0x9E {
            Instruction::SkipIfPressed { x }
        } else if class == 0xE && kk == 0xA1 {
            Instruction::SkipIfNotPressed { x }
        } else if class == 0xF && kk == 0x07 {
            Instruction::LoadDelayTimer { x }
        } else if class == 0xF && kk == 0x0A {
            Instruction::WaitForKey { x }
        } else if class == 0xF && kk == 0x15 {
            Instruction::SetDelayTimer { x }
        } else if class == 0xF && kk == 0x18 {
            Instruction::SetSoundTimer { x }
        } else if class == 0xF && kk == 0x1E {
            Instruction::AddToIndex { x }
        } else if class == 0xF && kk == 0x29 {
            Instruction::LoadGlyphAddress { x }
        } else if class == 0xF && kk == 0x33 {
            Instruction::StoreDecimal { x }
        } else if class == 0xF && kk == 0x55 {
            Instruction::StoreRegisters { x }
        } else if class == 0xF && kk == 0x65 {
            Instruction::LoadRegisters { x }
        } else {
            Instruction::Unknown
        }
    }

    /// Every field of the instruction is in the range of its digits.
    pub open spec fn wf(self) -> bool {
        match self {
            Instruction::ClearScreen | Instruction::Return | Instruction::Unknown => true,
            Instruction::Jump { nnn }
            | Instruction::Call { nnn }
            | Instruction::LoadIndex { nnn }
            | Instruction::JumpOffset { nnn } => nnn < 0x1000,
            Instruction::SkipEqualImmediate { x, kk }
            | Instruction::SkipNotEqualImmediate { x, kk }
            | Instruction::LoadImmediate { x, kk }
            | Instruction::AddImmediate { x, kk }
            | Instruction::Random { x, kk } => x < 16,
            Instruction::SkipEqual { x, y }
            | Instruction::Move { x, y }
            | Instruction::Or { x, y }
            | Instruction::And { x, y }
            | Instruction::Xor { x, y }
            | Instruction::Add { x, y }
            | Instruction::Subtract { x, y }
            | Instruction::SubtractReversed { x, y }
            | Instruction::SkipNotEqual { x, y } => x < 16 && y < 16,
            Instruction::Draw { x, y, n } => x < 16 && y < 16 && n < 16,
            Instruction::ShiftRight { x }
            | Instruction::ShiftLeft { x }
            | Instruction::SkipIfPressed { x }
            | Instruction::SkipIfNotPressed { x }
            | Instruction::LoadDelayTimer { x }
            | Instruction::WaitForKey { x }
            | Instruction::SetDelayTimer { x }
            | Instruction::SetSoundTimer { x }
            | Instruction::AddToIndex { x }
            | Instruction::LoadGlyphAddress { x }
            | Instruction::StoreDecimal { x }
            | Instruction::StoreRegisters { x }
            | Instruction::LoadRegisters { x } => x < 16,
        }
    }

    /// Whether the instruction sets the program counter itself instead of
    /// moving on from where it stands.
    pub open spec fn transfers_control(self) -> bool {
        match self {
            Instruction::Return
            | Instruction::Jump { .. }
            | Instruction::Call { .. }
            | Instruction::JumpOffset { .. } => true,
            _ => false,
        }
    }

    /// Splits a word into its digits and finds the instruction they encode.
    pub fn decode(opcode: u16) -> (instruction: Instruction)
        ensures
            instruction == Instruction::decode_spec(opcode),
            instruction.wf(),
    {
        let class: u16 = (opcode & 0xF000) >> 12;
        let x: u8 = ((opcode & 0x0F00) >> 8) as u8;
        let y: u8 = ((opcode & 0x00F0) >> 4) as u8;
        let n: u8 = (opcode & 0x000F) as u8;
        let kk: u8 = (opcode & 0x00FF) as u8;
        let nnn: u16 = opcode & 0x0FFF;
        assert(class == opcode / 0x1000) by (bit_vector)
            requires
                class == (opcode & 0xF000) >> 12,
        ;
        assert(x == (opcode / 0x100) % 0x10 && x < 16) by (bit_vector)
            requires
                x == ((opcode & 0x0F00) >> 8) as u8,
        ;
        assert(y == (opcode / 0x10) % 0x10 && y < 16) by (bit_vector)
            requires
                y == ((opcode & 0x00F0) >> 4) as u8,
        ;
        assert(n == opcode % 0x10 && n < 16) by (bit_vector)
            requires
                n == (opcode & 0x000F) as u8,
        ;
        assert(kk == opcode % 0x100) by (bit_vector)
            requires
                kk == (opcode & 0x00FF) as u8,
        ;
        assert(nnn == opcode % 0x1000 && nnn < 0x1000) by (bit_vector)
            requires
                nnn == opcode & 0x0FFF,
        ;
        match (class, y, n) {
            (0x0, 0xE, 0x0) => if x == 0 {
                Instruction::ClearScreen
            } else {
                Instruction::Unknown
            },
            (0x0, 0xE, 0xE) => if x == 0 {
                Instruction::Return
            } else {
                Instruction::Unknown
            },
            (0x1, _, _) => Instruction::Jump { nnn },
            (0x2, _, _) => Instruction::Call { nnn },
            (0x3, _, _) => Instruction::SkipEqualImmediate { x, kk },
            (0x4, _, _) => Instruction::SkipNotEqualImmediate { x, kk },
            (0x5, _, 0x0) => Instruction::SkipEqual { x, y },
            (0x6, _, _) => Instruction::LoadImmediate { x, kk },
            (0x7, _, _) => Instruction::AddImmediate { x, kk },
            (0x8, _, 0x0) => Instruction::Move { x, y },
            (0x8, _, 0x1) => Instruction::Or { x, y },
            (0x8, _, 0x2) => Instruction::And { x, y },
            (0x8, _, 0x3) => Instruction::Xor { x, y },
            (0x8, _, 0x4) => Instruction::Add { x, y },
            (0x8, _, 0x5) => Instruction::Subtract { x, y },
            (0x8, _, 0x6) => Instruction::ShiftRight { x },
            (0x8, _, 0x7) => Instruction::SubtractReversed { x, y },
            (0x8, _, 0xE) => Instruction::ShiftLeft { x },
            (0x9, _, 0x0) => Instruction::SkipNotEqual { x, y },
            (0xA, _, _) => Instruction::LoadIndex { nnn },
            (0xB, _, _) => Instruction::JumpOffset { nnn },
            (0xC, _, _) => Instruction::Random { x, kk },
            (0xD, _, _) => Instruction::Draw { x, y, n },
            (0xE, 0x9, 0xE) => Instruction::SkipIfPressed { x },
            (0xE, 0xA, 0x1) => Instruction::SkipIfNotPressed { x },
            (0xF, 0x0, 0x7) => Instruction::LoadDelayTimer { x },
            (0xF, 0x0, 0xA) => Instruction::WaitForKey { x },
            (0xF, 0x1, 0x5) => Instruction::SetDelayTimer { x },
            (0xF, 0x1, 0x8) => Instruction::SetSoundTimer { x },
            (0xF, 0x1, 0xE) => Instruction::AddToIndex { x },
            (0xF, 0x2, 0x9) => Instruction::LoadGlyphAddress { x },
            (0xF, 0x3, 0x3) => Instruction::StoreDecimal { x },
            (0xF, 0x5, 0x5) => Instruction::StoreRegisters { x },
            (0xF, 0x6, 0x5) => Instruction::LoadRegisters { x },
            _ => Instruction::Unknown,
        }
    }
}

} // verus!
