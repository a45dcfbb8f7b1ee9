use vstd::prelude::*;

use crate::machine::Chip8;

verus! {

impl Chip8 {
    /// Combine the two bytes of an instruction into a big-endian 16-bit word.
    pub fn decode(left_byte: u8, right_byte: u8) -> (word: u16)
        ensures
            word == left_byte * 256 + right_byte,
    {
        let left: u16 = left_byte as u16;
        let right: u16 = right_byte as u16;
        left * 256 + right
    }
}

/// One instruction, decoded: the operation together with its operand fields.
/// Register indices `x` and `y` are always below 16 and addresses `nnn`
/// below 0x1000 when produced by `decode_opcode`.
#[derive(Clone, Copy, Debug, PartialEq, Eq, Structural)]
pub enum Opcode {
    ClearDisplay,
    Return,
    Jump { nnn: u16 },
    Call { nnn: u16 },
    SkipEqImm { x: u8, nn: u8 },
    SkipNeImm { x: u8, nn: u8 },
    SkipEqReg { x: u8, y: u8 },
    LoadImm { x: u8, nn: u8 },
    AddImm { x: u8, nn: u8 },
    Assign { x: u8, y: u8 },
    Or { x: u8, y: u8 },
    And { x: u8, y: u8 },
    Xor { x: u8, y: u8 },
    AddCarry { x: u8, y: u8 },
    SubBorrow { x: u8, y: u8 },
    ShiftRight { x: u8 },
    SubReverse { x: u8, y: u8 },
    ShiftLeft { x: u8 },
    SkipNeReg { x: u8, y: u8 },
    SetIndex { nnn: u16 },
    JumpOffset { nnn: u16 },
    Random { x: u8, nn: u8 },
    Draw { x: u8, y: u8, n: u8 },
    SkipKeyPressed { x: u8 },
    SkipKeyNotPressed { x: u8 },
    GetDelay { x: u8 },
    AwaitKey { x: u8 },
    SetDelay { x: u8 },
    AddIndex { x: u8 },
    SpriteAddr { x: u8 },
    StoreBcd { x: u8 },
    DumpRegs { x: u8 },
    LoadRegs { x: u8 },
}

/// The instruction set: which opcode, if any, a 16-bit word encodes.
/// The top nibble selects the family; families 0x0, 0x8, 0xE and 0xF
/// discriminate further on the low bits. Words outside the set decode to
/// `None`.
pub open spec fn spec_decode(word: u16) -> Option<Opcode> {
    let family = word / 0x1000;
    let x = ((word / 0x100) % 0x10) as u8;
    let y = ((word / 0x10) % 0x10) as u8;
    let n = (word % 0x10) as u8;
    let nn = (word % 0x100) as u8;
    let nnn = (word % 0x1000) as u16;
    if word == 0x00E0 {
        Some(Opcode::ClearDisplay)
    } else if word == 0x00EE {
        Some(Opcode::Return)
    } else if family == 0x1 {
        Some(Opcode::Jump { nnn })
    } else if family == 0x2 {
        Some(Opcode::Call { nnn })
    } else if family == 0x3 {
        Some(Opcode::SkipEqImm { x, nn })
    } else if family == 0x4 {
        Some(Opcode::SkipNeImm { x, nn })
    } else if family == 0x5 && n == 0x0 {
        Some(Opcode::SkipEqReg { x, y })
    } else if family == 0x6 {
        Some(Opcode::LoadImm { x, nn })
    } else if family == 0x7 {
        Some(Opcode::AddImm { x, nn })
    } else if family == 0x8 {
        if n == 0x0 {
            Some(Opcode::Assign { x, y })
        } else if n == 0x1 {
            Some(Opcode::Or { x, y })
        } else if n == 0x2 {
            Some(Opcode::And { x, y })
        } else if n == 0x3 {
            Some(Opcode::Xor { x, y })
        } else if n == 0x4 {
            Some(Opcode::AddCarry { x, y })
        } else if n == 0x5 {
            Some(Opcode::SubBorrow { x, y })
        } else if n == 0x6 {
            Some(Opcode::ShiftRight { x })
        } else if n == 0x7 {
            Some(Opcode::SubReverse { x, y })
        } else if n == 0xE {
            Some(Opcode::ShiftLeft { x })
        } else {
            None
        }
    } else if family == 0x9 && n == 0x0 {
        Some(Opcode::SkipNeReg { x, y })
    } else if family == 0xA {
        Some(Opcode::SetIndex { nnn })
    } else if family == 0xB {
        Some(Opcode::JumpOffset { nnn })
    } else if family == 0xC {
        Some(Opcode::Random { x, nn })
    } else if family == 0xD {
        Some(Opcode::Draw { x, y, n })
    } else if family == 0xE {
        if nn == 0x9E {
            Some(Opcode::SkipKeyPressed { x })
        } else if nn == 0xA1 {
            Some(Opcode::SkipKeyNotPressed { x })
        } else {
            None
        }
    } else if family == 0xF {
        if nn == 0x07 {
            Some(Opcode::GetDelay { x })
        } else if nn == 0x0A {
            Some(Opcode::AwaitKey { x })
        } else if nn == 0x15 {
            Some(Opcode::SetDelay { x })
        } else if nn == 0x1E {
            Some(Opcode::AddIndex { x })
        } else if nn == 0x29 {
            Some(Opcode::SpriteAddr { x })
        } else if nn == 0x33 {
            Some(Opcode::StoreBcd { x })
        } else if nn == 0x55 {
            Some(Opcode::DumpRegs { x })
        } else if nn == 0x65 {
            Some(Opcode::LoadRegs { x })
        } else {
            None
        }
    } else {
        None
    }
}

/// Register indices stay below 16, nibbles below 16, addresses below 0x1000.
pub open spec fn opcode_fields_ok(op: Opcode) -> bool {
    match op {
        Opcode::ClearDisplay => true,
        Opcode::Return => true,
        Opcode::Jump { nnn } => nnn < 0x1000,
        Opcode::Call { nnn } => nnn < 0x1000,
        Opcode::SkipEqImm { x, nn } => x < 16,
        Opcode::SkipNeImm { x, nn } => x < 16,
        Opcode::SkipEqReg { x, y } => x < 16 && y < 16,
        Opcode::LoadImm { x, nn } => x < 16,
        Opcode::AddImm { x, nn } => x < 16,
        Opcode::Assign { x, y } => x < 16 && y < 16,
        Opcode::Or { x, y } => x < 16 && y < 16,
        Opcode::And { x, y } => x < 16 && y < 16,
        Opcode::Xor { x, y } => x < 16 && y < 16,
        Opcode::AddCarry { x, y } => x < 16 && y < 16,
        Opcode::SubBorrow { x, y } => x < 16 && y < 16,
        Opcode::ShiftRight { x } => x < 16,
        Opcode::SubReverse { x, y } => x < 16 && y < 16,
        Opcode::ShiftLeft { x } => x < 16,
        Opcode::SkipNeReg { x, y } => x < 16 && y < 16,
        Opcode::SetIndex { nnn } => nnn < 0x1000,
        Opcode::JumpOffset { nnn } => nnn < 0x1000,
        Opcode::Random { x, nn } => x < 16,
        Opcode::Draw { x, y, n } => x < 16 && y < 16 && n < 16,
        Opcode::SkipKeyPressed { x } => x < 16,
        Opcode::SkipKeyNotPressed { x } => x < 16,
        Opcode::GetDelay { x } => x < 16,
        Opcode::AwaitKey { x } => x < 16,
        Opcode::SetDelay { x } => x < 16,
        Opcode::AddIndex { x } => x < 16,
        Opcode::SpriteAddr { x } => x < 16,
        Opcode::StoreBcd { x } => x < 16,
        Opcode::DumpRegs { x } => x < 16,
        Opcode::LoadRegs { x } => x < 16,
    }
}

pub proof fn lemma_decoded_fields_ok(word: u16)
    ensures
        spec_decode(word) matches Some(op) ==> opcode_fields_ok(op),
{
}

/// Decode an instruction word into its operation and operand fields, or
/// `None` for a word outside the instruction set.
pub fn decode_opcode(word: u16) -> (decoded: Option<Opcode>)
    ensures
        decoded == spec_decode(word),
{
    let family = word / 0x1000;
    let x = ((word / 0x100) % 0x10) as u8;
    let y = ((word / 0x10) % 0x10) as u8;
    let n = (word % 0x10) as u8;
    let nn = (word % 0x100) as u8;
    let nnn = word % 0x1000;
    if word == 0x00E0 {
        Some(Opcode::ClearDisplay)
    } else if word == 0x00EE {
        Some(Opcode::Return)
    } else if family == 0x1 {
        Some(Opcode::Jump { nnn })
    } else if family == 0x2 {
        Some(Opcode::Call { nnn })
    } else if family == 0x3 {
        Some(Opcode::SkipEqImm { x, nn })
    } else if family == 0x4 {
        Some(Opcode::SkipNeImm { x, nn })
    } else if family == 0x5 && n == 0x0 {
        Some(Opcode::SkipEqReg { x, y })
    } else if family == 0x6 {
        Some(Opcode::LoadImm { x, nn })
    } else if family == 0x7 {
        Some(Opcode::AddImm { x, nn })
    } else if family == 0x8 {
        if n == 0x0 {
            Some(Opcode::Assign { x, y })
        } else if n == 0x1 {
            Some(Opcode::Or { x, y })
        } else if n == 0x2 {
            Some(Opcode::And { x, y })
        } else if n == 0x3 {
            Some(Opcode::Xor { x, y })
        } else if n == 0x4 {
            Some(Opcode::AddCarry { x, y })
        } else if n == 0x5 {
            Some(Opcode::SubBorrow { x, y })
        } else if n == 0x6 {
            Some(Opcode::ShiftRight { x })
        } else if n == 0x7 {
            Some(Opcode::SubReverse { x, y })
        } else if n == 0xE {
            Some(Opcode::ShiftLeft { x })
        } else {
            None
        }
    } else if family == 0x9 && n == 0x0 {
        Some(Opcode::SkipNeReg { x, y })
    } else if family == 0xA {
        Some(Opcode::SetIndex { nnn })
    } else if family == 0xB {
        Some(Opcode::JumpOffset { nnn })
    } else if family == 0xC {
        Some(Opcode::Random { x, nn })
    } else if family == 0xD {
        Some(Opcode::Draw { x, y, n })
    } else if family == 0xE {
        if nn == 0x9E {
            Some(Opcode::SkipKeyPressed { x })
        } else if nn == 0xA1 {
            Some(Opcode::SkipKeyNotPressed { x })
        } else {
            None
        }
    } else if family == 0xF {
        if nn == 0x07 {
            Some(Opcode::GetDelay { x })
        } else if nn == 0x0A {
            Some(Opcode::AwaitKey { x })
        } else if nn == 0x15 {
            Some(Opcode::SetDelay { x })
        } else if nn == 0x1E {
            Some(Opcode::AddIndex { x })
        } else if nn == 0x29 {
            Some(Opcode::SpriteAddr { x })
        } else if nn == 0x33 {
            Some(Opcode::StoreBcd { x })
        } else if nn == 0x55 {
            Some(Opcode::DumpRegs { x })
        } else if nn == 0x65 {
            Some(Opcode::LoadRegs { x })
        } else {
            None
        }
    } else {
        None
    }
}

} // verus!
