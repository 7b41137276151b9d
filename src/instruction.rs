//! Decoding of 16-bit opcodes into an explicit instruction enumeration.

use vstd::prelude::*;

verus! {

/// One decoded CHIP-8 instruction. Register operands are indices in `0..16`.
#[derive(Clone, Copy, Debug, PartialEq, Eq, Structural)]
pub enum Instruction {
    /// `00E0`: clear the display.
    Clear,
    /// `00EE`: return from a subroutine.
    Return,
    /// `1nnn`: jump to `nnn`.
    Jump { nnn: u16 },
    /// `2nnn`: call the subroutine at `nnn`.
    Call { nnn: u16 },
    /// `3xnn`: skip if `Vx == nn`.
    SkipEqImm { x: usize, nn: u8 },
    /// `4xnn`: skip if `Vx != nn`.
    SkipNeImm { x: usize, nn: u8 },
    /// `5xy0`: skip if `Vx == Vy`.
    SkipEqReg { x: usize, y: usize },
    /// `6xnn`: `Vx = nn`.
    LoadImm { x: usize, nn: u8 },
    /// `7xnn`: `Vx += nn`, wrapping, no flag.
    AddImm { x: usize, nn: u8 },
    /// `8xy0`: `Vx = Vy`.
    Assign { x: usize, y: usize },
    /// `8xy1`: `Vx |= Vy`.
    Or { x: usize, y: usize },
    /// `8xy2`: `Vx &= Vy`.
    And { x: usize, y: usize },
    /// `8xy3`: `Vx ^= Vy`.
    Xor { x: usize, y: usize },
    /// `8xy4`: `Vx += Vy` with carry in `VF`.
    AddReg { x: usize, y: usize },
    /// `8xy5`: `Vx -= Vy` with no-borrow in `VF`.
    SubReg { x: usize, y: usize },
    /// `8xy6`: shift right by one, shifted-out bit in `VF`.
    ShiftRight { x: usize, y: usize },
    /// `8xy7`: `Vx = Vy - Vx` with no-borrow in `VF`.
    SubRev { x: usize, y: usize },
    /// `8xyE`: shift left by one, shifted-out bit in `VF`.
    ShiftLeft { x: usize, y: usize },
    /// `9xy0`: skip if `Vx != Vy`.
    SkipNeReg { x: usize, y: usize },
    /// `Annn`: `I = nnn`.
    SetIndex { nnn: u16 },
    /// `Bnnn`: jump to `nnn` plus a register.
    JumpOffset { nnn: u16 },
    /// `Cxnn`: `Vx = random & nn`.
    Random { x: usize, nn: u8 },
    /// `Dxyn`: draw an `n`-row sprite at `(Vx, Vy)`.
    Draw { x: usize, y: usize, n: u8 },
    /// `Ex9E`: skip if key `Vx` is pressed.
    SkipKey { x: usize },
    /// `ExA1`: skip if key `Vx` is not pressed.
    SkipNoKey { x: usize },
    /// `Fx07`: `Vx = delay timer`.
    GetDelay { x: usize },
    /// `Fx0A`: wait for a key press and store its index in `Vx`.
    WaitKey { x: usize },
    /// `Fx15`: `delay timer = Vx`.
    SetDelay { x: usize },
    /// `Fx18`: `sound timer = Vx`.
    SetSound { x: usize },
    /// `Fx1E`: `I += Vx`.
    AddIndex { x: usize },
    /// `Fx29`: `I` = address of the glyph for digit `Vx`.
    FontChar { x: usize },
    /// `Fx33`: store the decimal digits of `Vx` at `I..I+3`.
    Bcd { x: usize },
    /// `Fx55`: store `V0..=Vx` at `I..`.
    StoreRegs { x: usize },
    /// `Fx65`: load `V0..=Vx` from `I..`.
    LoadRegs { x: usize },
    /// Any opcode without a meaning; it is ignored.
    Unknown { opcode: u16 },
}

/// The `x` operand: bits 8..12.
pub open spec fn op_x(op: u16) -> usize {
    ((op & 0x0F00u16) >> 8u16) as usize
}

/// The `y` operand: bits 4..8.
pub open spec fn op_y(op: u16) -> usize {
    ((op & 0x00F0u16) >> 4u16) as usize
}

/// The `n` operand: bits 0..4.
pub open spec fn op_n(op: u16) -> u8 {
    (op & 0x000Fu16) as u8
}

/// The `nn` operand: bits 0..8.
pub open spec fn op_nn(op: u16) -> u8 {
    (op & 0x00FFu16) as u8
}

/// The `nnn` operand: bits 0..12.
pub open spec fn op_nnn(op: u16) -> u16 {
    op & 0x0FFFu16
}

/// The instruction family: bits 12..16.
pub open spec fn op_family(op: u16) -> u16 {
    op >> 12u16
}

/// The meaning of an opcode.
pub open spec fn decode_spec(op: u16) -> Instruction {
    let x = op_x(op);
    let y = op_y(op);
    let nn = op_nn(op);
    let nnn = op_nnn(op);
    let f = op_family(op);
    if f == 0 {
        if op == 0x00E0 {
            Instruction::Clear
        } else if op == 0x00EE {
            Instruction::Return
        } else {
            Instruction::Unknown { opcode: op }
        }
    } else if f == 1 {
        Instruction::Jump { nnn }
    } else if f == 2 {
        Instruction::Call { nnn }
    } else if f == 3 {
        Instruction::SkipEqImm { x, nn }
    } else if f == 4 {
        Instruction::SkipNeImm { x, nn }
    } else if f == 5 {
        Instruction::SkipEqReg { x, y }
    } else if f == 6 {
        Instruction::LoadImm { x, nn }
    } else if f == 7 {
        Instruction::AddImm { x, nn }
    } else if f == 8 {
        let k = op_n(op);
        if k == 0 {
            Instruction::Assign { x, y }
        } else if k == 1 {
            Instruction::Or { x, y }
        } else if k == 2 {
            Instruction::And { x, y }
        } else if k == 3 {
            Instruction::Xor { x, y }
        } else if k == 4 {
            Instruction::AddReg { x, y }
        } else if k == 5 {
            Instruction::SubReg { x, y }
        } else if k == 6 {
            Instruction::ShiftRight { x, y }
        } else if k == 7 {
            Instruction::SubRev { x, y }
        } else if k == 0xE {
            Instruction::ShiftLeft { x, y }
        } else {
            Instruction::Unknown { opcode: op }
        }
    } else if f == 9 {
        Instruction::SkipNeReg { x, y }
    } else if f == 0xA {
        Instruction::SetIndex { nnn }
    } else if f == 0xB {
        Instruction::JumpOffset { nnn }
    } else if f == 0xC {
        Instruction::Random { x, nn }
    } else if f == 0xD {
        Instruction::Draw { x, y, n: op_n(op) }
    } else if f == 0xE {
        if nn == 0x9E {
            Instruction::SkipKey { x }
        } else if nn == 0xA1 {
            Instruction::SkipNoKey { x }
        } else {
            Instruction::Unknown { opcode: op }
        }
    } else {
        if nn == 0x07 {
            Instruction::GetDelay { x }
        } else if nn == 0x0A {
            Instruction::WaitKey { x }
        } else if nn == 0x15 {
            Instruction::SetDelay { x }
        } else if nn == 0x18 {
            Instruction::SetSound { x }
        } else if nn == 0x1E {
            Instruction::AddIndex { x }
        } else if nn == 0x29 {
            Instruction::FontChar { x }
        } else if nn == 0x33 {
            Instruction::Bcd { x }
        } else if nn == 0x55 {
            Instruction::StoreRegs { x }
        } else if nn == 0x65 {
            Instruction::LoadRegs { x }
        } else {
            Instruction::Unknown { opcode: op }
        }
    }
}

/// Every register operand of an instruction is a valid register index.
pub open spec fn operands_valid(ins: Instruction) -> bool {
    match ins {
        Instruction::SkipEqImm { x, .. } | Instruction::SkipNeImm { x, .. }
        | Instruction::LoadImm { x, .. } | Instruction::AddImm { x, .. }
        | Instruction::Random { x, .. } | Instruction::SkipKey { x }
        | Instruction::SkipNoKey { x } | Instruction::GetDelay { x }
        | Instruction::WaitKey { x } | Instruction::SetDelay { x }
        | Instruction::SetSound { x } | Instruction::AddIndex { x }
        | Instruction::FontChar { x } | Instruction::Bcd { x }
        | Instruction::StoreRegs { x } | Instruction::LoadRegs { x } => x < 16,
        Instruction::SkipEqReg { x, y } | Instruction::SkipNeReg { x, y }
        | Instruction::Assign { x, y } | Instruction::Or { x, y }
        | Instruction::And { x, y } | Instruction::Xor { x, y }
        | Instruction::AddReg { x, y } | Instruction::SubReg { x, y }
        | Instruction::ShiftRight { x, y } | Instruction::SubRev { x, y }
        | Instruction::ShiftLeft { x, y } => x < 16 && y < 16,
        Instruction::Draw { x, y, n } => x < 16 && y < 16 && n < 16,
        Instruction::JumpOffset { nnn } => nnn < 0x1000,
        _ => true,
    }
}

proof fn lemma_operands_in_range(op: u16)
    ensures
        op_x(op) < 16,
        op_y(op) < 16,
        op_n(op) < 16,
        op_nnn(op) < 0x1000,
        op_family(op) < 16,
{
    assert((op & 0x0F00u16) >> 8u16 < 16) by (bit_vector);
    assert((op & 0x00F0u16) >> 4u16 < 16) by (bit_vector);
    assert(op & 0x000Fu16 < 16) by (bit_vector);
    assert(op & 0x0FFFu16 < 0x1000) by (bit_vector);
    assert(op >> 12u16 < 16) by (bit_vector);
}

/// Decodes an opcode.
pub fn decode(op: u16) -> (r: Instruction)
    ensures
        r == decode_spec(op),
        operands_valid(r),
{
    proof {
        lemma_operands_in_range(op);
    }
    let x = ((op & 0x0F00) >> 8) as usize;
    let y = ((op & 0x00F0) >> 4) as usize;
    let n = (op & 0x000F) as u8;
    let nn = (op & 0x00FF) as u8;
    let nnn = op & 0x0FFF;
    let f = op >> 12;
    if f == 0 {
        if op == 0x00E0 {
            Instruction::Clear
        } else if op == 0x00EE {
            Instruction::Return
        } else {
            Instruction::Unknown { opcode: op }
        }
    } else if f == 1 {
        Instruction::Jump { nnn }
    } else if f == 2 {
        Instruction::Call { nnn }
    } else if f == 3 {
        Instruction::SkipEqImm { x, nn }
    } else if f == 4 {
        Instruction::SkipNeImm { x, nn }
    } else if f == 5 {
        Instruction::SkipEqReg { x, y }
    } else if f == 6 {
        Instruction::LoadImm { x, nn }
    } else if f == 7 {
        Instruction::AddImm { x, nn }
    } else if f == 8 {
        if n == 0 {
            Instruction::Assign { x, y }
        } else if n == 1 {
            Instruction::Or { x, y }
        } else if n == 2 {
            Instruction::And { x, y }
        } else if n == 3 {
            Instruction::Xor { x, y }
        } else if n == 4 {
            Instruction::AddReg { x, y }
        } else if n == 5 {
            Instruction::SubReg { x, y }
        } else if n == 6 {
            Instruction::ShiftRight { x, y }
        } else if n == 7 {
            Instruction::SubRev { x, y }
        } else if n == 0xE {
            Instruction::ShiftLeft { x, y }
        } else {
            Instruction::Unknown { opcode: op }
        }
    } else if f == 9 {
        Instruction::SkipNeReg { x, y }
    } else if f == 0xA {
        Instruction::SetIndex { nnn }
    } else if f == 0xB {
        Instruction::JumpOffset { nnn }
    } else if f == 0xC {
        Instruction::Random { x, nn }
    } else if f == 0xD {
        Instruction::Draw { x, y, n }
    } else if f == 0xE {
        if nn == 0x9E {
            Instruction::SkipKey { x }
        } else if nn == 0xA1 {
            Instruction::SkipNoKey { x }
        } else {
            Instruction::Unknown { opcode: op }
        }
    } else {
        if nn == 0x07 {
            Instruction::GetDelay { x }
        } else if nn == 0x0A {
            Instruction::WaitKey { x }
        } else if nn == 0x15 {
            Instruction::SetDelay { x }
        } else if nn == 0x18 {
            Instruction::SetSound { x }
        } else if nn == 0x1E {
            Instruction::AddIndex { x }
        } else if nn == 0x29 {
            Instruction::FontChar { x }
        } else if nn == 0x33 {
            Instruction::Bcd { x }
        } else if nn == 0x55 {
            Instruction::StoreRegs { x }
        } else if nn == 0x65 {
            Instruction::LoadRegs { x }
        } else {
            Instruction::Unknown { opcode: op }
        }
    }
}

} // verus!
