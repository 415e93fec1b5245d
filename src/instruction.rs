use vstd::prelude::*;

verus! {

/// One decoded CHIP-8 instruction. Register operands `x` and `y` are 4-bit
/// register indices, `nn` an immediate byte, `addr` a 12-bit address and `n`
/// a sprite height in rows.
#[derive(Clone, Copy, Debug, PartialEq, Eq, Structural)]
pub enum Instruction {
    /// 0x0000: do nothing.
    Nop,
    /// 0x00E0: clear the display.
    ClearScreen,
    /// 0x00EE: return from a subroutine.
    Return,
    /// 0x1NNN: jump to NNN.
    Jump { addr: u16 },
    /// 0x2NNN: call the subroutine at NNN.
    Call { addr: u16 },
    /// 0x3XNN: skip the next instruction if VX == NN.
    SkipEqImm { x: u8, nn: u8 },
    /// 0x4XNN: skip the next instruction if VX != NN.
    SkipNeImm { x: u8, nn: u8 },
    /// 0x5XY0: skip the next instruction if VX == VY.
    SkipEqReg { x: u8, y: u8 },
    /// 0x6XNN: VX := NN.
    LoadImm { x: u8, nn: u8 },
    /// 0x7XNN: VX := VX + NN, wrapping.
    AddImm { x: u8, nn: u8 },
    /// 0x8XY0: VX := VY.
    Move { x: u8, y: u8 },
    /// 0x8XY1: VX := VX | VY.
    Or { x: u8, y: u8 },
    /// 0x8XY2: VX := VX & VY.
    And { x: u8, y: u8 },
    /// 0x8XY3: VX := VX ^ VY.
    Xor { x: u8, y: u8 },
    /// 0x8XY4: VX := VX + VY, VF := carry.
    AddReg { x: u8, y: u8 },
    /// 0x8XY5: VX := VX - VY, VF := no borrow.
    SubReg { x: u8, y: u8 },
    /// 0x8XY6: VX := VX >> 1, VF := the bit shifted out.
    ShiftRight { x: u8 },
    /// 0x8XY7: VX := VY - VX, VF := no borrow.
    SubReverse { x: u8, y: u8 },
    /// 0x8XYE: VX := VX << 1, VF := the bit shifted out.
    ShiftLeft { x: u8 },
    /// 0x9XY0: skip the next instruction if VX != VY.
    SkipNeReg { x: u8, y: u8 },
    /// 0xANNN: I := NNN.
    SetIndex { addr: u16 },
    /// 0xBNNN: jump to V0 + NNN.
    JumpOffset { addr: u16 },
    /// 0xCXNN: VX := random byte & NN.
    Random { x: u8, nn: u8 },
    /// 0xDXYN: draw an N-row sprite from memory at I at (VX, VY).
    Draw { x: u8, y: u8, n: u8 },
    /// 0xEX9E: skip the next instruction if key VX is down.
    SkipIfKey { x: u8 },
    /// 0xEXA1: skip the next instruction if key VX is up.
    SkipIfNotKey { x: u8 },
    /// 0xFX07: VX := delay timer.
    LoadDelay { x: u8 },
    /// 0xFX0A: wait for a key press and store its index in VX.
    WaitKey { x: u8 },
    /// 0xFX15: delay timer := VX.
    SetDelay { x: u8 },
    /// 0xFX18: sound timer := VX.
    SetSound { x: u8 },
    /// 0xFX1E: I := I + VX, wrapping.
    AddIndex { x: u8 },
    /// 0xFX29: I := address of the font glyph for VX.
    FontChar { x: u8 },
    /// 0xFX33: store the decimal digits of VX at I, I+1, I+2.
    StoreBcd { x: u8 },
    /// 0xFX55: store V0..=VX into memory from I on.
    StoreRegs { x: u8 },
    /// 0xFX65: load V0..=VX from memory from I on.
    LoadRegs { x: u8 },
}

impl Instruction {
    /// Every operand is within the width of the opcode field it came from.
    pub open spec fn wf(self) -> bool {
        match self {
            Instruction::Jump { addr } | Instruction::Call { addr } | Instruction::SetIndex { addr }
            | Instruction::JumpOffset { addr } => addr < 0x1000,
            Instruction::SkipEqImm { x, nn: _ } | Instruction::SkipNeImm { x, nn: _ }
            | Instruction::LoadImm { x, nn: _ } | Instruction::AddImm { x, nn: _ }
            | Instruction::Random { x, nn: _ } | Instruction::ShiftRight { x }
            | Instruction::ShiftLeft { x } | Instruction::SkipIfKey { x }
            | Instruction::SkipIfNotKey { x } | Instruction::LoadDelay { x }
            | Instruction::WaitKey { x } | Instruction::SetDelay { x }
            | Instruction::SetSound { x } | Instruction::AddIndex { x }
            | Instruction::FontChar { x } | Instruction::StoreBcd { x }
            | Instruction::StoreRegs { x } | Instruction::LoadRegs { x } => x < 16,
            Instruction::SkipEqReg { x, y } | Instruction::Move { x, y } | Instruction::Or { x, y }
            | Instruction::And { x, y } | Instruction::Xor { x, y } | Instruction::AddReg { x, y }
            | Instruction::SubReg { x, y } | Instruction::SubReverse { x, y }
            | Instruction::SkipNeReg { x, y } => x < 16 && y < 16,
            Instruction::Draw { x, y, n } => x < 16 && y < 16 && n < 16,
            _ => true,
        }
    }
}

/// The first (most significant) nibble of an opcode.
pub open spec fn nibble1(op: u16) -> u16 {
    op / 0x1000
}

/// The second nibble of an opcode (the X register operand).
pub open spec fn nibble2(op: u16) -> u16 {
    (op / 0x100) % 0x10
}

/// The third nibble of an opcode (the Y register operand).
pub open spec fn nibble3(op: u16) -> u16 {
    (op / 0x10) % 0x10
}

/// The last nibble of an opcode.
pub open spec fn nibble4(op: u16) -> u16 {
    op % 0x10
}

/// The instruction that an opcode encodes, or `None` for an opcode that
/// matches no instruction pattern.
pub open spec fn decode_spec(op: u16) -> Option<Instruction> {
    let d1 = nibble1(op);
    let d2 = nibble2(op);
    let d3 = nibble3(op);
    let d4 = nibble4(op);
    let x = d2 as u8;
    let y = d3 as u8;
    let nn = (op % 0x100) as u8;
    let addr = (op % 0x1000) as u16;
    if op == 0x0000 {
        Some(Instruction::Nop)
    } else if op == 0x00E0 {
        Some(Instruction::ClearScreen)
    } else if op == 0x00EE {
        Some(Instruction::Return)
    } else if d1 == 1 {
        Some(Instruction::Jump { addr })
    } else if d1 == 2 {
        Some(Instruction::Call { addr })
    } else if d1 == 3 {
        Some(Instruction::SkipEqImm { x, nn })
    } else if d1 == 4 {
        Some(Instruction::SkipNeImm { x, nn })
    } else if d1 == 5 && d4 == 0 {
        Some(Instruction::SkipEqReg { x, y })
    } else if d1 == 6 {
        Some(Instruction::LoadImm { x, nn })
    } else if d1 == 7 {
        Some(Instruction::AddImm { x, nn })
    } else if d1 == 8 && d4 == 0 {
        Some(Instruction::Move { x, y })
    } else if d1 == 8 && d4 == 1 {
        Some(Instruction::Or { x, y })
    } else if d1 == 8 && d4 == 2 {
        Some(Instruction::And { x, y })
    } else if d1 == 8 && d4 == 3 {
        Some(Instruction::Xor { x, y })
    } else if d1 == 8 && d4 == 4 {
        Some(Instruction::AddReg { x, y })
    } else if d1 == 8 && d4 == 5 {
        Some(Instruction::SubReg { x, y })
    } else if d1 == 8 && d4 == 6 {
        Some(Instruction::ShiftRight { x })
    } else if d1 == 8 && d4 == 7 {
        Some(Instruction::SubReverse { x, y })
    } else if d1 == 8 && d4 == 0xE {
        Some(Instruction::ShiftLeft { x })
    } else if d1 == 9 && d4 == 0 {
        Some(Instruction::SkipNeReg { x, y })
    } else if d1 == 0xA {
        Some(Instruction::SetIndex { addr })
    } else if d1 == 0xB {
        Some(Instruction::JumpOffset { addr })
    } else if d1 == 0xC {
        Some(Instruction::Random { x, nn })
    } else if d1 == 0xD {
        Some(Instruction::Draw { x, y, n: d4 as u8 })
    } else if d1 == 0xE && nn == 0x9E {
        Some(Instruction::SkipIfKey { x })
    } else if d1 == 0xE && nn == 0xA1 {
        Some(Instruction::SkipIfNotKey { x })
    } else if d1 == 0xF && nn == 0x07 {
        Some(Instruction::LoadDelay { x })
    } else if d1 == 0xF && nn == 0x0A {
        Some(Instruction::WaitKey { x })
    } else if d1 == 0xF && nn == 0x15 {
        Some(Instruction::SetDelay { x })
    } else if d1 == 0xF && nn == 0x18 {
        Some(Instruction::SetSound { x })
    } else if d1 == 0xF && nn == 0x1E {
        Some(Instruction::AddIndex { x })
    } else if d1 == 0xF && nn == 0x29 {
        Some(Instruction::FontChar { x })
    } else if d1 == 0xF && nn == 0x33 {
        Some(Instruction::StoreBcd { x })
    } else if d1 == 0xF && nn == 0x55 {
        Some(Instruction::StoreRegs { x })
    } else if d1 == 0xF && nn == 0x65 {
        Some(Instruction::LoadRegs { x })
    } else {
        None
    }
}

/// Decodes a 16-bit opcode into its instruction; `None` where the opcode
/// matches no instruction pattern.
pub fn decode(op: u16) -> (r: Option<Instruction>)
    ensures
        r == decode_spec(op),
        r matches Some(ins) ==> ins.wf(),
{
    let d1 = op / 0x1000;
    let d4 = op % 0x10;
    let x = ((op / 0x100) % 0x10) as u8;
    let y = ((op / 0x10) % 0x10) as u8;
    let nn = (op % 0x100) as u8;
    let addr = op % 0x1000;
    if op == 0x0000 {
        Some(Instruction::Nop)
    } else if op == 0x00E0 {
        Some(Instruction::ClearScreen)
    } else if op == 0x00EE {
        Some(Instruction::Return)
    } else if d1 == 1 {
        Some(Instruction::Jump { addr })
    } else if d1 == 2 {
        Some(Instruction::Call { addr })
    } else if d1 == 3 {
        Some(Instruction::SkipEqImm { x, nn })
    } else if d1 == 4 {
        Some(Instruction::SkipNeImm { x, nn })
    } else if d1 == 5 && d4 == 0 {
        Some(Instruction::SkipEqReg { x, y })
    } else if d1 == 6 {
        Some(Instruction::LoadImm { x, nn })
    } else if d1 == 7 {
        Some(Instruction::AddImm { x, nn })
    } else if d1 == 8 {
        if d4 == 0 {
            Some(Instruction::Move { x, y })
        } else if d4 == 1 {
            Some(Instruction::Or { x, y })
        } else if d4 == 2 {
            Some(Instruction::And { x, y })
        } else if d4 == 3 {
            Some(Instruction::Xor { x, y })
        } else if d4 == 4 {
            Some(Instruction::AddReg { x, y })
        } else if d4 == 5 {
            Some(Instruction::SubReg { x, y })
        } else if d4 == 6 {
            Some(Instruction::ShiftRight { x })
        } else if d4 == 7 {
            Some(Instruction::SubReverse { x, y })
        } else if d4 == 0xE {
            Some(Instruction::ShiftLeft { x })
        } else {
            None
        }
    } else if d1 == 9 && d4 == 0 {
        Some(Instruction::SkipNeReg { x, y })
    } else if d1 == 0xA {
        Some(Instruction::SetIndex { addr })
    } else if d1 == 0xB {
        Some(Instruction::JumpOffset { addr })
    } else if d1 == 0xC {
        Some(Instruction::Random { x, nn })
    } else if d1 == 0xD {
        Some(Instruction::Draw { x, y, n: d4 as u8 })
    } else if d1 == 0xE && nn == 0x9E {
        Some(Instruction::SkipIfKey { x })
    } else if d1 == 0xE && nn == 0xA1 {
        Some(Instruction::SkipIfNotKey { x })
    } else if d1 == 0xF {
        if nn == 0x07 {
            Some(Instruction::LoadDelay { x })
        } else if nn == 0x0A {
            Some(Instruction::WaitKey { x })
        } else if nn == 0x15 {
            Some(Instruction::SetDelay { x })
        } else if nn == 0x18 {
            Some(Instruction::SetSound { x })
        } else if nn == 0x1E {
            Some(Instruction::AddIndex { x })
        } else if nn == 0x29 {
            Some(Instruction::FontChar { x })
        } else if nn == 0x33 {
            Some(Instruction::StoreBcd { x })
        } else if nn == 0x55 {
            Some(Instruction::StoreRegs { x })
        } else if nn == 0x65 {
            Some(Instruction::LoadRegs { x })
        } else {
            None
        }
    } else {
        None
    }
}

} // verus!
