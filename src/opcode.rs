use vstd::prelude::*;

verus! {

/// One decoded instruction. `x` and `y` name registers (0 to 15), `nn` is an
/// 8-bit immediate, `nnn` a 12-bit address and `n` a 4-bit sprite height.
#[derive(Debug, Clone, Copy, PartialEq, Eq, Structural)]
pub enum Instruction {
    /// `00E0`: blank the screen.
    ClearScreen,
    /// `00EE`: return from a subroutine.
    Return,
    /// `1NNN`: jump to `nnn`.
    Jump { nnn: u16 },
    /// `2NNN`: call the subroutine at `nnn`.
    Call { nnn: u16 },
    /// `3XNN`: skip the next instruction if `VX == nn`.
    SkipIfEqualImm { x: u8, nn: u8 },
    /// `4XNN`: skip the next instruction if `VX != nn`.
    SkipIfNotEqualImm { x: u8, nn: u8 },
    /// `5XY0`: skip the next instruction if `VX == VY`.
    SkipIfEqualReg { x: u8, y: u8 },
    /// `6XNN`: `VX := nn`.
    SetImm { x: u8, nn: u8 },
    /// `7XNN`: `VX := VX + nn` modulo 256, no flag.
    AddImm { x: u8, nn: u8 },
    /// `8XY0`: `VX := VY`.
    Assign { x: u8, y: u8 },
    /// `8XY1`: `VX := VX | VY`.
    Or { x: u8, y: u8 },
    /// `8XY2`: `VX := VX & VY`.
    And { x: u8, y: u8 },
    /// `8XY3`: `VX := VX ^ VY`.
    Xor { x: u8, y: u8 },
    /// `8XY4`: `VX := VX + VY` modulo 256, carry into `VF`.
    AddReg { x: u8, y: u8 },
    /// `8XY5`: `VX := VX - VY` modulo 256, borrow into `VF`.
    SubReg { x: u8, y: u8 },
    /// `8XY6`: shift `VX` right by one, the bit shifted out into `VF`.
    ShiftRight { x: u8 },
    /// `8XY7`: `VX := VY - VX` modulo 256, borrow into `VF`.
    SubRev { x: u8, y: u8 },
    /// `8XYE`: shift `VX` left by one, the bit shifted out into `VF`.
    ShiftLeft { x: u8 },
    /// `9XY0`: skip the next instruction if `VX != VY`.
    SkipIfNotEqualReg { x: u8, y: u8 },
    /// `ANNN`: `I := nnn`.
    SetIndex { nnn: u16 },
    /// `BNNN`: jump to `nnn + V0`.
    JumpOffset { nnn: u16 },
    /// `CXNN`: `VX := random byte & nn`.
    Random { x: u8, nn: u8 },
    /// `DXYN`: draw the `n` sprite rows at `I` at `(VX, VY)`, collision into `VF`.
    Draw { x: u8, y: u8, n: u8 },
    /// `EX9E`: skip the next instruction if the key `VX` is pressed.
    SkipIfKey { x: u8 },
    /// `EXA1`: skip the next instruction if the key `VX` is not pressed.
    SkipIfNotKey { x: u8 },
    /// `FX07`: `VX := delay timer`.
    GetDelay { x: u8 },
    /// `FX0A`: wait for a key press and store the key in `VX`.
    WaitKey { x: u8 },
    /// `FX15`: `delay timer := VX`.
    SetDelay { x: u8 },
    /// `FX18`: `sound timer := VX`.
    SetSound { x: u8 },
    /// `FX1E`: `I := I + VX` (a 16-bit register); `VF` tells whether the sum
    /// passed 0xFFF.
    AddIndex { x: u8 },
    /// `FX29`: point `I` at the glyph of the digit `VX`.
    Glyph { x: u8 },
    /// `FX33`: store the decimal digits of `VX` at `I`, `I+1`, `I+2`.
    Bcd { x: u8 },
    /// `FX55`: store `V0..=VX` at `I`, then advance `I` past them.
    Dump { x: u8 },
    /// `FX65`: load `V0..=VX` from `I`, then advance `I` past them.
    Load { x: u8 },
}

/// The operation class: the top four bits of an opcode.
pub open spec fn class_of(op: u16) -> int {
    op as int / 4096
}

/// The `X` field: bits 8 to 11.
pub open spec fn x_of(op: u16) -> u8 {
    ((op as int / 256) % 16) as u8
}

/// The `Y` field: bits 4 to 7.
pub open spec fn y_of(op: u16) -> u8 {
    ((op as int / 16) % 16) as u8
}

/// The `N` field: bits 0 to 3.
pub open spec fn n_of(op: u16) -> u8 {
    (op as int % 16) as u8
}

/// The `NN` field: bits 0 to 7.
pub open spec fn nn_of(op: u16) -> u8 {
    (op as int % 256) as u8
}

/// The `NNN` field: bits 0 to 11.
pub open spec fn nnn_of(op: u16) -> u16 {
    (op as int % 4096) as u16
}

/// The dispatch table: the class picks the instruction, and within the
/// classes `0` and `8` the `N` field, within `E` and `F` the `NN` field.
pub open spec fn decode_spec(op: u16) -> Option<Instruction> {
    let x = x_of(op);
    let y = y_of(op);
    let n = n_of(op);
    let nn = nn_of(op);
    let nnn = nnn_of(op);
    let c = class_of(op);
    if c == 0 {
        if n == 0 {
            Some(Instruction::ClearScreen)
        } else if n == 0xE {
            Some(Instruction::Return)
        } else {
            None
        }
    } else if c == 1 {
        Some(Instruction::Jump { nnn })
    } else if c == 2 {
        Some(Instruction::Call { nnn })
    } else if c == 3 {
        Some(Instruction::SkipIfEqualImm { x, nn })
    } else if c == 4 {
        Some(Instruction::SkipIfNotEqualImm { x, nn })
    } else if c == 5 {
        Some(Instruction::SkipIfEqualReg { x, y })
    } else if c == 6 {
        Some(Instruction::SetImm { x, nn })
    } else if c == 7 {
        Some(Instruction::AddImm { x, nn })
    } else if c == 8 {
        if n == 0 {
            Some(Instruction::Assign { x, y })
        } else if n == 1 {
            Some(Instruction::Or { x, y })
        } else if n == 2 {
            Some(Instruction::And { x, y })
        } else if n == 3 {
            Some(Instruction::Xor { x, y })
        } else if n == 4 {
            Some(Instruction::AddReg { x, y })
        } else if n == 5 {
            Some(Instruction::SubReg { x, y })
        } else if n == 6 {
            Some(Instruction::ShiftRight { x })
        } else if n == 7 {
            Some(Instruction::SubRev { x, y })
        } else if n == 0xE {
            Some(Instruction::ShiftLeft { x })
        } else {
            None
        }
    } else if c == 9 {
        Some(Instruction::SkipIfNotEqualReg { x, y })
    } else if c == 0xA {
        Some(Instruction::SetIndex { nnn })
    } else if c == 0xB {
        Some(Instruction::JumpOffset { nnn })
    } else if c == 0xC {
        Some(Instruction::Random { x, nn })
    } else if c == 0xD {
        Some(Instruction::Draw { x, y, n })
    } else if c == 0xE {
        if nn == 0x9E {
            Some(Instruction::SkipIfKey { x })
        } else if nn == 0xA1 {
            Some(Instruction::SkipIfNotKey { x })
        } else {
            None
        }
    } else {
        if nn == 0x07 {
            Some(Instruction::GetDelay { x })
        } else if nn == 0x0A {
            Some(Instruction::WaitKey { x })
        } else if nn == 0x15 {
            Some(Instruction::SetDelay { x })
        } else if nn == 0x18 {
            Some(Instruction::SetSound { x })
        } else if nn == 0x1E {
            Some(Instruction::AddIndex { x })
        } else if nn == 0x29 {
            Some(Instruction::Glyph { x })
        } else if nn == 0x33 {
            Some(Instruction::Bcd { x })
        } else if nn == 0x55 {
            Some(Instruction::Dump { x })
        } else if nn == 0x65 {
            Some(Instruction::Load { x })
        } else {
            None
        }
    }
}

impl Instruction {
    /// Whether every operand fits its field: registers and heights below 16,
    /// addresses below 4096.
    pub open spec fn wf(self) -> bool {
        match self {
            Instruction::ClearScreen | Instruction::Return => true,
            Instruction::Jump { nnn }
            | Instruction::Call { nnn }
            | Instruction::SetIndex { nnn }
            | Instruction::JumpOffset { nnn } => nnn < 4096,
            Instruction::SkipIfEqualImm { x, .. }
            | Instruction::SkipIfNotEqualImm { x, .. }
            | Instruction::SetImm { x, .. }
            | Instruction::AddImm { x, .. }
            | Instruction::Random { x, .. }
            | Instruction::ShiftRight { x }
            | Instruction::ShiftLeft { x }
            | Instruction::SkipIfKey { x }
            | Instruction::SkipIfNotKey { x }
            | Instruction::GetDelay { x }
            | Instruction::WaitKey { x }
            | Instruction::SetDelay { x }
            | Instruction::SetSound { x }
            | Instruction::AddIndex { x }
            | Instruction::Glyph { x }
            | Instruction::Bcd { x }
            | Instruction::Dump { x }
            | Instruction::Load { x } => x < 16,
            Instruction::SkipIfEqualReg { x, y }
            | Instruction::Assign { x, y }
            | Instruction::Or { x, y }
            | Instruction::And { x, y }
            | Instruction::Xor { x, y }
            | Instruction::AddReg { x, y }
            | Instruction::SubReg { x, y }
            | Instruction::SubRev { x, y }
            | Instruction::SkipIfNotEqualReg { x, y } => x < 16 && y < 16,
            Instruction::Draw { x, y, n } => x < 16 && y < 16 && n < 16,
        }
    }

    /// Splits a raw opcode into its fields and looks it up in the dispatch
    /// table; `None` for an opcode that names no instruction.
    pub fn decode(op: u16) -> (r: Option<Instruction>)
        ensures
            r == decode_spec(op),
            r matches Some(ins) ==> ins.wf(),
    {
        let x = ((op / 256) % 16) as u8;
        let y = ((op / 16) % 16) as u8;
        let n = (op % 16) as u8;
        let nn = (op % 256) as u8;
        let nnn = op % 4096;
        let c = op / 4096;
        if c == 0 {
            if n == 0 {
                Some(Instruction::ClearScreen)
            } else if n == 0xE {
                Some(Instruction::Return)
            } else {
                None
            }
        } else if c == 1 {
            Some(Instruction::Jump { nnn })
        } else if c == 2 {
            Some(Instruction::Call { nnn })
        } else if c == 3 {
            Some(Instruction::SkipIfEqualImm { x, nn })
        } else if c == 4 {
            Some(Instruction::SkipIfNotEqualImm { x, nn })
        } else if c == 5 {
            Some(Instruction::SkipIfEqualReg { x, y })
        } else if c == 6 {
            Some(Instruction::SetImm { x, nn })
        } else if c == 7 {
            Some(Instruction::AddImm { x, nn })
        } else if c == 8 {
            if n == 0 {
                Some(Instruction::Assign { x, y })
            } else if n == 1 {
                Some(Instruction::Or { x, y })
            } else if n == 2 {
                Some(Instruction::And { x, y })
            } else if n == 3 {
                Some(Instruction::Xor { x, y })
            } else if n == 4 {
                Some(Instruction::AddReg { x, y })
            } else if n == 5 {
                Some(Instruction::SubReg { x, y })
            } else if n == 6 {
                Some(Instruction::ShiftRight { x })
            } else if n == 7 {
                Some(Instruction::SubRev { x, y })
            } else if n == 0xE {
                Some(Instruction::ShiftLeft { x })
            } else {
                None
            }
        } else if c == 9 {
            Some(Instruction::SkipIfNotEqualReg { x, y })
        } else if c == 0xA {
            Some(Instruction::SetIndex { nnn })
        } else if c == 0xB {
            Some(Instruction::JumpOffset { nnn })
        } else if c == 0xC {
            Some(Instruction::Random { x, nn })
        } else if c == 0xD {
            Some(Instruction::Draw { x, y, n })
        } else if c == 0xE {
            if nn == 0x9E {
                Some(Instruction::SkipIfKey { x })
            } else if nn == 0xA1 {
                Some(Instruction::SkipIfNotKey { x })
            } else {
                None
            }
        } else {
            if nn == 0x07 {
                Some(Instruction::GetDelay { x })
            } else if nn == 0x0A {
                Some(Instruction::WaitKey { x })
            } else if nn == 0x15 {
                Some(Instruction::SetDelay { x })
            } else if nn == 0x18 {
                Some(Instruction::SetSound { x })
            } else if nn == 0x1E {
                Some(Instruction::AddIndex { x })
            } else if nn == 0x29 {
                Some(Instruction::Glyph { x })
            } else if nn == 0x33 {
                Some(Instruction::Bcd { x })
            } else if nn == 0x55 {
                Some(Instruction::Dump { x })
            } else if nn == 0x65 {
                Some(Instruction::Load { x })
            } else {
                None
            }
        }
    }
}

} // verus!
