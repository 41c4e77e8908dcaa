use vstd::prelude::*;

use crate::instruction::Instruction;

verus! {

/// A decoded instruction. Register indices (`x`, `y`) and `n` are nibbles,
/// `kk` is the immediate byte and `addr` the 12-bit immediate address.
#[derive(Clone, Copy, Debug, PartialEq, Eq, Structural)]
pub enum Op {
    /// `00E0`: clear the framebuffer.
    ClearScreen,
    /// `00EE`: return from a subroutine.
    Return,
    /// `1nnn`: jump to `nnn`.
    Jump { addr: u16 },
    /// `2nnn`: call the subroutine at `nnn`.
    Call { addr: u16 },
    /// `3xkk`: skip the next instruction if `Vx == kk`.
    SkipIfEqImm { x: u8, kk: u8 },
    /// `4xkk`: skip the next instruction if `Vx != kk`.
    SkipIfNeImm { x: u8, kk: u8 },
    /// `5xy0`: skip the next instruction if `Vx == Vy`.
    SkipIfEqReg { x: u8, y: u8 },
    /// `6xkk`: `Vx = kk`.
    LoadImm { x: u8, kk: u8 },
    /// `7xkk`: `Vx += kk`, without touching the flag.
    AddImm { x: u8, kk: u8 },
    /// `8xy0`: `Vx = Vy`.
    Move { x: u8, y: u8 },
    /// `8xy1`: `Vx |= Vy`.
    Or { x: u8, y: u8 },
    /// `8xy2`: `Vx &= Vy`.
    And { x: u8, y: u8 },
    /// `8xy3`: `Vx ^= Vy`.
    Xor { x: u8, y: u8 },
    /// `8xy4`: `Vx += Vy`, flag = carry.
    AddReg { x: u8, y: u8 },
    /// `8xy5`: `Vx -= Vy`, flag = no borrow.
    SubReg { x: u8, y: u8 },
    /// `8xy6`: shift right by one, flag = bit shifted out.
    ShiftRight { x: u8, y: u8 },
    /// `8xy7`: `Vx = Vy - Vx`, flag = no borrow.
    SubRev { x: u8, y: u8 },
    /// `8xyE`: shift left by one, flag = bit shifted out.
    ShiftLeft { x: u8, y: u8 },
    /// `9xy0`: skip the next instruction if `Vx != Vy`.
    SkipIfNeReg { x: u8, y: u8 },
    /// `Annn`: `I = nnn`.
    LoadIndex { addr: u16 },
    /// `Bnnn`: jump with an offset (`nnn + V0`, or `kk + Vx`).
    JumpOffset { x: u8, kk: u8, addr: u16 },
    /// `Cxkk`: `Vx = random & kk`.
    Random { x: u8, kk: u8 },
    /// `Dxyn`: draw the `n`-row sprite at `I` at `(Vx, Vy)`.
    Draw { x: u8, y: u8, n: u8 },
    /// `Ex9E`: skip the next instruction if key `Vx` is down.
    SkipIfKey { x: u8 },
    /// `ExA1`: skip the next instruction if key `Vx` is up.
    SkipIfNotKey { x: u8 },
    /// `Fx07`: `Vx = delay timer`.
    ReadDelay { x: u8 },
    /// `Fx0A`: wait for a key release and store the key in `Vx`.
    WaitKey { x: u8 },
    /// `Fx15`: `delay timer = Vx`.
    SetDelay { x: u8 },
    /// `Fx18`: `sound timer = Vx`.
    SetSound { x: u8 },
    /// `Fx1E`: `I += Vx`.
    AddIndex { x: u8 },
    /// `Fx29`: `I` = address of the glyph for digit `Vx`.
    LoadGlyph { x: u8 },
    /// `Fx33`: store the decimal digits of `Vx` at `I`, `I+1`, `I+2`.
    StoreBcd { x: u8 },
    /// `Fx55`: store `V0..=Vx` at `I`.
    StoreRegs { x: u8 },
    /// `Fx65`: load `V0..=Vx` from `I`.
    LoadRegs { x: u8 },
}

/// The instruction that four nibbles encode, or `None` for a pattern that
/// names no instruction.
pub open spec fn decode_spec(p: (u8, u8, u8, u8)) -> Option<Op> {
    let (a, x, y, n) = p;
    let kk = (y * 16 + n) as u8;
    let addr = (x * 256 + y * 16 + n) as u16;
    if a == 0 {
        if x == 0 && y == 0xE && n == 0 {
            Some(Op::ClearScreen)
        } else if x == 0 && y == 0xE && n == 0xE {
            Some(Op::Return)
        } else {
            None
        }
    } else if a == 1 {
        Some(Op::Jump { addr })
    } else if a == 2 {
        Some(Op::Call { addr })
    } else if a == 3 {
        Some(Op::SkipIfEqImm { x, kk })
    } else if a == 4 {
        Some(Op::SkipIfNeImm { x, kk })
    } else if a == 5 {
        if n == 0 { Some(Op::SkipIfEqReg { x, y }) } else { None }
    } else if a == 6 {
        Some(Op::LoadImm { x, kk })
    } else if a == 7 {
        Some(Op::AddImm { x, kk })
    } else if a == 8 {
        if n == 0 {
            Some(Op::Move { x, y })
        } else if n == 1 {
            Some(Op::Or { x, y })
        } else if n == 2 {
            Some(Op::And { x, y })
        } else if n == 3 {
            Some(Op::Xor { x, y })
        } else if n == 4 {
            Some(Op::AddReg { x, y })
        } else if n == 5 {
            Some(Op::SubReg { x, y })
        } else if n == 6 {
            Some(Op::ShiftRight { x, y })
        } else if n == 7 {
            Some(Op::SubRev { x, y })
        } else if n == 0xE {
            Some(Op::ShiftLeft { x, y })
        } else {
            None
        }
    } else if a == 9 {
        if n == 0 { Some(Op::SkipIfNeReg { x, y }) } else { None }
    } else if a == 0xA {
        Some(Op::LoadIndex { addr })
    } else if a == 0xB {
        Some(Op::JumpOffset { x, kk, addr })
    } else if a == 0xC {
        Some(Op::Random { x, kk })
    } else if a == 0xD {
        Some(Op::Draw { x, y, n })
    } else if a == 0xE {
        if y == 9 && n == 0xE {
            Some(Op::SkipIfKey { x })
        } else if y == 0xA && n == 1 {
            Some(Op::SkipIfNotKey { x })
        } else {
            None
        }
    } else if a == 0xF {
        if y == 0 && n == 7 {
            Some(Op::ReadDelay { x })
        } else if y == 0 && n == 0xA {
            Some(Op::WaitKey { x })
        } else if y == 1 && n == 5 {
            Some(Op::SetDelay { x })
        } else if y == 1 && n == 8 {
            Some(Op::SetSound { x })
        } else if y == 1 && n == 0xE {
            Some(Op::AddIndex { x })
        } else if y == 2 && n == 9 {
            Some(Op::LoadGlyph { x })
        } else if y == 3 && n == 3 {
            Some(Op::StoreBcd { x })
        } else if y == 5 && n == 5 {
            Some(Op::StoreRegs { x })
        } else if y == 6 && n == 5 {
            Some(Op::LoadRegs { x })
        } else {
            None
        }
    } else {
        None
    }
}

impl Op {
    /// Register indices and the sprite height are nibbles, addresses are 12-bit.
    pub open spec fn wf(&self) -> bool {
        match *self {
            Op::ClearScreen | Op::Return => true,
            Op::Jump { addr } | Op::Call { addr } | Op::LoadIndex { addr } => addr < 4096,
            Op::SkipIfEqImm { x, .. } | Op::SkipIfNeImm { x, .. } | Op::LoadImm { x, .. }
            | Op::AddImm { x, .. } | Op::Random { x, .. } => x < 16,
            Op::SkipIfEqReg { x, y } | Op::SkipIfNeReg { x, y } | Op::Move { x, y } | Op::Or {
                x,
                y,
            } | Op::And { x, y } | Op::Xor { x, y } | Op::AddReg { x, y } | Op::SubReg { x, y }
            | Op::ShiftRight { x, y } | Op::SubRev { x, y } | Op::ShiftLeft { x, y } => x < 16 && y
                < 16,
            Op::JumpOffset { x, addr, .. } => x < 16 && addr < 4096,
            Op::Draw { x, y, n } => x < 16 && y < 16 && n < 16,
            Op::SkipIfKey { x } | Op::SkipIfNotKey { x } | Op::ReadDelay { x } | Op::WaitKey { x }
            | Op::SetDelay { x } | Op::SetSound { x } | Op::AddIndex { x } | Op::LoadGlyph { x }
            | Op::StoreBcd { x } | Op::StoreRegs { x } | Op::LoadRegs { x } => x < 16,
        }
    }
}

/// Every instruction decoded from nibbles is well formed.
pub proof fn lemma_decode_wf(p: (u8, u8, u8, u8))
    requires
        p.0 < 16 && p.1 < 16 && p.2 < 16 && p.3 < 16,
    ensures
        decode_spec(p) matches Some(op) ==> op.wf(),
{
}

impl Instruction {
    /// Decodes the instruction; `None` for a pattern that names no instruction.
    pub fn decode(&self) -> (r: Option<Op>)
        requires
            self.wf(),
        ensures
            r == decode_spec(self.0),
            r matches Some(op) ==> op.wf(),
    {
        proof {
            lemma_decode_wf(self.0);
        }
        let (a, x, y, n) = self.0;
        let kk = y * 16 + n;
        let addr = (x as u16) * 256 + (y as u16) * 16 + (n as u16);
        if a == 0 {
            if x == 0 && y == 0xE && n == 0 {
                Some(Op::ClearScreen)
            } else if x == 0 && y == 0xE && n == 0xE {
                Some(Op::Return)
            } else {
                None
            }
        } else if a == 1 {
            Some(Op::Jump { addr })
        } else if a == 2 {
            Some(Op::Call { addr })
        } else if a == 3 {
            Some(Op::SkipIfEqImm { x, kk })
        } else if a == 4 {
            Some(Op::SkipIfNeImm { x, kk })
        } else if a == 5 {
            if n == 0 { Some(Op::SkipIfEqReg { x, y }) } else { None }
        } else if a == 6 {
            Some(Op::LoadImm { x, kk })
        } else if a == 7 {
            Some(Op::AddImm { x, kk })
        } else if a == 8 {
            if n == 0 {
                Some(Op::Move { x, y })
            } else if n == 1 {
                Some(Op::Or { x, y })
            } else if n == 2 {
                Some(Op::And { x, y })
            } else if n == 3 {
                Some(Op::Xor { x, y })
            } else if n == 4 {
                Some(Op::AddReg { x, y })
            } else if n == 5 {
                Some(Op::SubReg { x, y })
            } else if n == 6 {
                Some(Op::ShiftRight { x, y })
            } else if n == 7 {
                Some(Op::SubRev { x, y })
            } else if n == 0xE {
                Some(Op::ShiftLeft { x, y })
            } else {
                None
            }
        } else if a == 9 {
            if n == 0 { Some(Op::SkipIfNeReg { x, y }) } else { None }
        } else if a == 0xA {
            Some(Op::LoadIndex { addr })
        } else if a == 0xB {
            Some(Op::JumpOffset { x, kk, addr })
        } else if a == 0xC {
            Some(Op::Random { x, kk })
        } else if a == 0xD {
            Some(Op::Draw { x, y, n })
        } else if a == 0xE {
            if y == 9 && n == 0xE {
                Some(Op::SkipIfKey { x })
            } else if y == 0xA && n == 1 {
                Some(Op::SkipIfNotKey { x })
            } else {
                None
            }
        } else if a == 0xF {
            if y == 0 && n == 7 {
                Some(Op::ReadDelay { x })
            } else if y == 0 && n == 0xA {
                Some(Op::WaitKey { x })
            } else if y == 1 && n == 5 {
                Some(Op::SetDelay { x })
            } else if y == 1 && n == 8 {
                Some(Op::SetSound { x })
            } else if y == 1 && n == 0xE {
                Some(Op::AddIndex { x })
            } else if y == 2 && n == 9 {
                Some(Op::LoadGlyph { x })
            } else if y == 3 && n == 3 {
                Some(Op::StoreBcd { x })
            } else if y == 5 && n == 5 {
                Some(Op::StoreRegs { x })
            } else if y == 6 && n == 5 {
                Some(Op::LoadRegs { x })
            } else {
                None
            }
        } else {
            None
        }
    }
}

} // verus!
