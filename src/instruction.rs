use vstd::prelude::*;

verus! {

/// One decoded instruction. `x` and `y` name registers (0 to 15), `nn` is an
/// 8-bit immediate, `addr` a 12-bit address and `n` a 4-bit row count.
#[derive(Debug, Clone, Copy, PartialEq, Eq, Structural)]
pub enum Instruction {
    /// `00E0`: clear the display.
    ClearScreen,
    /// `00EE`: return from a subroutine.
    Return,
    /// `1NNN`: jump to `addr`.
    Jump { addr: u16 },
    /// `2NNN`: call the subroutine at `addr`.
    Call { addr: u16 },
    /// `3XNN`: skip the next instruction if `reg[x] == nn`.
    SkipEqImm { x: u8, nn: u8 },
    /// `4XNN`: skip the next instruction if `reg[x] != nn`.
    SkipNeImm { x: u8, nn: u8 },
    /// `5XY0`: skip the next instruction if `reg[x] == reg[y]`.
    SkipEqReg { x: u8, y: u8 },
    /// `6XNN`: `reg[x] := nn`.
    LoadImm { x: u8, nn: u8 },
    /// `7XNN`: `reg[x] := reg[x] + nn`, wrapping, flag untouched.
    AddImm { x: u8, nn: u8 },
    /// `8XY0`: `reg[x] := reg[y]`.
    Move { x: u8, y: u8 },
    /// `8XY1`: `reg[x] := reg[x] | reg[y]`.
    Or { x: u8, y: u8 },
    /// `8XY2`: `reg[x] := reg[x] & reg[y]`.
    And { x: u8, y: u8 },
    /// `8XY3`: `reg[x] := reg[x] ^ reg[y]`.
    Xor { x: u8, y: u8 },
    /// `8XY4`: `reg[x] := reg[x] + reg[y]`, wrapping; the flag is the carry.
    AddReg { x: u8, y: u8 },
    /// `8XY5`: `reg[x] := reg[x] - reg[y]`, wrapping; the flag is 0 on borrow.
    SubReg { x: u8, y: u8 },
    /// `8XY6`: shift `reg[x]` right by one; the flag is the bit shifted out.
    ShiftRight { x: u8 },
    /// `8XY7`: `reg[x] := reg[y] - reg[x]`, wrapping; the flag is 0 on borrow.
    SubRev { x: u8, y: u8 },
    /// `8XYE`: shift `reg[x]` left by one; the flag is the bit shifted out.
    ShiftLeft { x: u8 },
    /// `9XY0`: skip the next instruction if `reg[x] != reg[y]`.
    SkipNeReg { x: u8, y: u8 },
    /// `ANNN`: `index := addr`.
    SetIndex { addr: u16 },
    /// `BNNN`: jump to `addr + reg[0]`.
    JumpOffset { addr: u16 },
    /// `CXNN`: `reg[x] := nn & r` for a random byte `r`.
    Random { x: u8, nn: u8 },
    /// `DXYN`: draw the `n`-row sprite at `memory[index..]` at `(reg[x], reg[y])`.
    Draw { x: u8, y: u8, n: u8 },
    /// `EX9E`: skip the next instruction if key `reg[x]` is pressed.
    SkipKeyPressed { x: u8 },
    /// `EXA1`: skip the next instruction if key `reg[x]` is not pressed.
    SkipKeyReleased { x: u8 },
    /// `FX07`: `reg[x] := delay timer`.
    LoadDelay { x: u8 },
    /// `FX0A`: wait for a key press and store the lowest pressed key in `reg[x]`.
    WaitKey { x: u8 },
    /// `FX15`: `delay timer := reg[x]`.
    SetDelay { x: u8 },
    /// `FX18`: `sound timer := reg[x]`.
    SetSound { x: u8 },
    /// `FX1E`: `index := index + reg[x]`, wrapping at 16 bits.
    AddIndex { x: u8 },
    /// `FX29`: `index := 5 * reg[x]`, the glyph of a hexadecimal digit.
    FontGlyph { x: u8 },
    /// `FX33`: store the decimal digits of `reg[x]` at `memory[index..index + 3]`.
    StoreBcd { x: u8 },
    /// `FX55`: store `reg[0..=x]` at `memory[index..]`.
    StoreRegs { x: u8 },
    /// `FX65`: load `reg[0..=x]` from `memory[index..]`.
    LoadRegs { x: u8 },
}

/// The high nibble of an opcode: the instruction family.
pub open spec fn family(op: u16) -> u16 {
    op / 4096
}

/// The second nibble: the first register operand.
pub open spec fn field_x(op: u16) -> u8 {
    ((op / 256) % 16) as u8
}

/// The third nibble: the second register operand.
pub open spec fn field_y(op: u16) -> u8 {
    ((op / 16) % 16) as u8
}

/// The low nibble.
pub open spec fn field_n(op: u16) -> u8 {
    (op % 16) as u8
}

/// The low byte.
pub open spec fn field_nn(op: u16) -> u8 {
    (op % 256) as u8
}

/// The low twelve bits: an address.
pub open spec fn field_nnn(op: u16) -> u16 {
    op % 4096
}

/// The instruction that `op` encodes, if any.
pub open spec fn decode_spec(op: u16) -> Option<Instruction> {
    let x = field_x(op);
    let y = field_y(op);
    let n = field_n(op);
    let nn = field_nn(op);
    let addr = field_nnn(op);
    let f = family(op);
    if f == 0x0 {
        if op == 0x00E0 {
            Some(Instruction::ClearScreen)
        } else if op == 0x00EE {
            Some(Instruction::Return)
        } else {
            None
        }
    } else if f == 0x1 {
        Some(Instruction::Jump { addr })
    } else if f == 0x2 {
        Some(Instruction::Call { addr })
    } else if f == 0x3 {
        Some(Instruction::SkipEqImm { x, nn })
    } else if f == 0x4 {
        Some(Instruction::SkipNeImm { x, nn })
    } else if f == 0x5 {
        if n == 0 {
            Some(Instruction::SkipEqReg { x, y })
        } else {
            None
        }
    } else if f == 0x6 {
        Some(Instruction::LoadImm { x, nn })
    } else if f == 0x7 {
        Some(Instruction::AddImm { x, nn })
    } else if f == 0x8 {
        if n == 0x0 {
            Some(Instruction::Move { x, y })
        } else if n == 0x1 {
            Some(Instruction::Or { x, y })
        } else if n == 0x2 {
            Some(Instruction::And { x, y })
        } else if n == 0x3 {
            Some(Instruction::Xor { x, y })
        } else if n == 0x4 {
            Some(Instruction::AddReg { x, y })
        } else if n == 0x5 {
            Some(Instruction::SubReg { x, y })
        } else if n == 0x6 {
            Some(Instruction::ShiftRight { x })
        } else if n == 0x7 {
            Some(Instruction::SubRev { x, y })
        } else if n == 0xE {
            Some(Instruction::ShiftLeft { x })
        } else {
            None
        }
    } else if f == 0x9 {
        if n == 0 {
            Some(Instruction::SkipNeReg { x, y })
        } else {
            None
        }
    } else if f == 0xA {
        Some(Instruction::SetIndex { addr })
    } else if f == 0xB {
        Some(Instruction::JumpOffset { addr })
    } else if f == 0xC {
        Some(Instruction::Random { x, nn })
    } else if f == 0xD {
        Some(Instruction::Draw { x, y, n })
    } else if f == 0xE {
        if nn == 0x9E {
            Some(Instruction::SkipKeyPressed { x })
        } else if nn == 0xA1 {
            Some(Instruction::SkipKeyReleased { x })
        } else {
            None
        }
    } else if nn == 0x07 {
        Some(Instruction::LoadDelay { x })
    } else if nn == 0x0A {
        Some(Instruction::WaitKey { x })
    } else if nn == 0x15 {
        Some(Instruction::SetDelay { x })
    } else if nn == 0x18 {
        Some(Instruction::SetSound { x })
    } else if nn == 0x1E {
        Some(Instruction::AddIndex { x })
    } else if nn == 0x29 {
        Some(Instruction::FontGlyph { x })
    } else if nn == 0x33 {
        Some(Instruction::StoreBcd { x })
    } else if nn == 0x55 {
        Some(Instruction::StoreRegs { x })
    } else if nn == 0x65 {
        Some(Instruction::LoadRegs { x })
    } else {
        None
    }
}

impl Instruction {
    /// Operands are in range: registers below 16, addresses below 4096,
    /// row counts below 16.
    pub open spec fn wf(self) -> bool {
        match self {
            Instruction::ClearScreen | Instruction::Return => true,
            Instruction::Jump { addr } | Instruction::Call { addr } | Instruction::SetIndex {
                addr,
            } | Instruction::JumpOffset { addr } => addr < 4096,
            Instruction::SkipEqImm { x, .. } | Instruction::SkipNeImm { x, .. }
            | Instruction::LoadImm { x, .. } | Instruction::AddImm { x, .. }
            | Instruction::Random { x, .. } | Instruction::ShiftRight { x }
            | Instruction::ShiftLeft { x } | Instruction::SkipKeyPressed { x }
            | Instruction::SkipKeyReleased { x } | Instruction::LoadDelay { x }
            | Instruction::WaitKey { x } | Instruction::SetDelay { x } | Instruction::SetSound {
                x,
            } | Instruction::AddIndex { x } | Instruction::FontGlyph { x }
            | Instruction::StoreBcd { x } | Instruction::StoreRegs { x }
            | Instruction::LoadRegs { x } => x < 16,
            Instruction::SkipEqReg { x, y } | Instruction::Move { x, y } | Instruction::Or { x, y }
            | Instruction::And { x, y } | Instruction::Xor { x, y } | Instruction::AddReg { x, y }
            | Instruction::SubReg { x, y } | Instruction::SubRev { x, y }
            | Instruction::SkipNeReg { x, y } => x < 16 && y < 16,
            Instruction::Draw { x, y, n } => x < 16 && y < 16 && n < 16,
        }
    }
}

/// Decodes an opcode: its high nibble picks the family, and for families
/// 0, 8, E and F the low nibble or byte picks the instruction. Returns `None`
/// for a bit pattern that encodes no instruction.
pub fn decode(op: u16) -> (r: Option<Instruction>)
    ensures
        r == decode_spec(op),
        r matches Some(i) ==> i.wf(),
{
    let x = ((op / 256) % 16) as u8;
    let y = ((op / 16) % 16) as u8;
    let n = (op % 16) as u8;
    let nn = (op % 256) as u8;
    let addr = op % 4096;
    match op / 4096 {
        0x0 => match op {
            0x00E0 => Some(Instruction::ClearScreen),
            0x00EE => Some(Instruction::Return),
            _ => None,
        },
        0x1 => Some(Instruction::Jump { addr }),
        0x2 => Some(Instruction::Call { addr }),
        0x3 => Some(Instruction::SkipEqImm { x, nn }),
        0x4 => Some(Instruction::SkipNeImm { x, nn }),
        0x5 => if n == 0 {
            Some(Instruction::SkipEqReg { x, y })
        } else {
            None
        },
        0x6 => Some(Instruction::LoadImm { x, nn }),
        0x7 => Some(Instruction::AddImm { x, nn }),
        0x8 => match n {
            0x0 => Some(Instruction::Move { x, y }),
            0x1 => Some(Instruction::Or { x, y }),
            0x2 => Some(Instruction::And { x, y }),
            0x3 => Some(Instruction::Xor { x, y }),
            0x4 => Some(Instruction::AddReg { x, y }),
            0x5 => Some(Instruction::SubReg { x, y }),
            0x6 => Some(Instruction::ShiftRight { x }),
            0x7 => Some(Instruction::SubRev { x, y }),
            0xE => Some(Instruction::ShiftLeft { x }),
            _ => None,
        },
        0x9 => if n == 0 {
            Some(Instruction::SkipNeReg { x, y })
        } else {
            None
        },
        0xA => Some(Instruction::SetIndex { addr }),
        0xB => Some(Instruction::JumpOffset { addr }),
        0xC => Some(Instruction::Random { x, nn }),
        0xD => Some(Instruction::Draw { x, y, n }),
        0xE => match nn {
            0x9E => Some(Instruction::SkipKeyPressed { x }),
            0xA1 => Some(Instruction::SkipKeyReleased { x }),
            _ => None,
        },
        _ => match nn {
            0x07 => Some(Instruction::LoadDelay { x }),
            0x0A => Some(Instruction::WaitKey { x }),
            0x15 => Some(Instruction::SetDelay { x }),
            0x18 => Some(Instruction::SetSound { x }),
            0x1E => Some(Instruction::AddIndex { x }),
            0x29 => Some(Instruction::FontGlyph { x }),
            0x33 => Some(Instruction::StoreBcd { x }),
            0x55 => Some(Instruction::StoreRegs { x }),
            0x65 => Some(Instruction::LoadRegs { x }),
            _ => None,
        },
    }
}

} // verus!
