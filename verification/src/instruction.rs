//! The instruction set: one variant per defined instruction, operands extracted.

use vstd::prelude::*;
use crate::opcode::Opcode;

verus! {

/// A decoded instruction. `x` and `y` are register indices, `kk` an 8-bit
/// immediate, `nnn` a 12-bit address and `n` a 4-bit immediate.
#[derive(Clone, Copy, Debug, PartialEq, Eq, Structural)]
pub enum Instruction {
    /// `00E0`: clear the screen.
    Clr,
    /// `00EE`: return from a subroutine.
    Ret,
    /// `1NNN`: jump to `nnn`.
    Jump(u16),
    /// `2NNN`: call the subroutine at `nnn`.
    Call(u16),
    /// `3XKK`: skip the next instruction if `Vx == kk`.
    Ske(u8, u8),
    /// `4XKK`: skip the next instruction if `Vx != kk`.
    Skne(u8, u8),
    /// `5XY_`: skip the next instruction if `Vx == Vy`.
    Skre(u8, u8),
    /// `6XKK`: `Vx = kk`.
    Load(u8, u8),
    /// `7XKK`: `Vx += kk`, wrapping, no flag.
    Add(u8, u8),
    /// `8XY0`: `Vx = Vy`.
    Mov(u8, u8),
    /// `8XY1`: `Vx |= Vy`.
    Or(u8, u8),
    /// `8XY2`: `Vx &= Vy`.
    And(u8, u8),
    /// `8XY3`: `Vx ^= Vy`.
    Xor(u8, u8),
    /// `8XY4`: `Vx += Vy`, `VF` = carry.
    Addr(u8, u8),
    /// `8XY5`: `Vx -= Vy`, `VF` = borrow.
    Sub(u8, u8),
    /// `8XY6`: `Vx >>= 1`, `VF` = the bit shifted out.
    Shr(u8),
    /// `8XY7`: `Vx = Vy - Vx`, `VF` = borrow.
    Ssub(u8, u8),
    /// `8XYE`: `Vx <<= 1`, `VF` = the bit shifted out.
    Shl(u8),
    /// `9XY_`: skip the next instruction if `Vx != Vy`.
    Skrne(u8, u8),
    /// `ANNN`: `I = nnn`.
    Loadi(u16),
    /// `BNNN`: jump to `V0 + nnn`.
    Jumpi(u16),
    /// `CXKK`: `Vx = random & kk`.
    Rand(u8, u8),
    /// `DXYN`: draw an `n`-row sprite at (`Vx`, `Vy`).
    Draw(u8, u8, u8),
    /// `EX9E`: skip the next instruction if key `Vx` is pressed.
    Skpr(u8),
    /// `EXA1`: skip the next instruction if key `Vx` is not pressed.
    Skup(u8),
    /// `FX07`: `Vx = delay timer`.
    Moved(u8),
    /// `FX0A`: wait for a key and store its number in `Vx`.
    Keyd(u8),
    /// `FX15`: `delay timer = Vx`.
    Loadd(u8),
    /// `FX18`: `sound timer = Vx`.
    Loads(u8),
    /// `FX1E`: `I += Vx`, `VF` = overflow past 12 bits.
    Addi(u8),
    /// `FX29`: `I` = address of the glyph for `Vx`.
    Ldspr(u8),
    /// `FX33`: store the decimal digits of `Vx` at `I`, `I+1`, `I+2`.
    Bcd(u8),
    /// `FX55`: store `V0..=Vx` at `I`.
    Mstor(u8),
    /// `FX65`: load `V0..=Vx` from `I`.
    Mread(u8),
}

impl Instruction {
    /// Every operand lies in its field's range.
    pub open spec fn wf(self) -> bool {
        match self {
            Instruction::Clr | Instruction::Ret => true,
            Instruction::Jump(nnn)
            | Instruction::Call(nnn)
            | Instruction::Loadi(nnn)
            | Instruction::Jumpi(nnn) => nnn < 0x1000,
            Instruction::Ske(x, _)
            | Instruction::Skne(x, _)
            | Instruction::Load(x, _)
            | Instruction::Add(x, _)
            | Instruction::Rand(x, _) => x < 16,
            Instruction::Skre(x, y)
            | Instruction::Mov(x, y)
            | Instruction::Or(x, y)
            | Instruction::And(x, y)
            | Instruction::Xor(x, y)
            | Instruction::Addr(x, y)
            | Instruction::Sub(x, y)
            | Instruction::Ssub(x, y)
            | Instruction::Skrne(x, y) => x < 16 && y < 16,
            Instruction::Draw(x, y, n) => x < 16 && y < 16 && n < 16,
            Instruction::Shr(x)
            | Instruction::Shl(x)
            | Instruction::Skpr(x)
            | Instruction::Skup(x)
            | Instruction::Moved(x)
            | Instruction::Keyd(x)
            | Instruction::Loadd(x)
            | Instruction::Loads(x)
            | Instruction::Addi(x)
            | Instruction::Ldspr(x)
            | Instruction::Bcd(x)
            | Instruction::Mstor(x)
            | Instruction::Mread(x) => x < 16,
        }
    }
}

impl Instruction {
    /// A conditional skip.
    pub open spec fn is_skip(self) -> bool {
        self is Ske || self is Skne || self is Skre || self is Skrne || self is Skpr || self is Skup
    }

    /// Neither a jump, call or return, nor a skip, nor the key wait: the
    /// instruction after it is the next one in memory.
    pub open spec fn is_sequential(self) -> bool {
        !(self is Ret || self is Jump || self is Call || self is Jumpi || self is Keyd
            || self.is_skip())
    }
}

/// The instruction that a word denotes, or `None` where it denotes none.
///
/// The class is the top nibble. Classes `0`, `E` and `F` select by the low
/// byte, class `8` by the low nibble; the other classes have a single form.
pub open spec fn decode_spec(word: u16) -> Option<Instruction> {
    let op = Opcode { opcode: word };
    let x = op.x_field() as u8;
    let y = op.y_field() as u8;
    let n = op.n_field() as u8;
    let kk = op.kk_field() as u8;
    let nnn = op.nnn_field() as u16;
    let class = word as int / 0x1000;
    if class == 0x0 {
        if kk == 0xE0 {
            Some(Instruction::Clr)
        } else if kk == 0xEE {
            Some(Instruction::Ret)
        } else {
            None
        }
    } else if class == 0x1 {
        Some(Instruction::Jump(nnn))
    } else if class == 0x2 {
        Some(Instruction::Call(nnn))
    } else if class == 0x3 {
        Some(Instruction::Ske(x, kk))
    } else if class == 0x4 {
        Some(Instruction::Skne(x, kk))
    } else if class == 0x5 {
        Some(Instruction::Skre(x, y))
    } else if class == 0x6 {
        Some(Instruction::Load(x, kk))
    } else if class == 0x7 {
        Some(Instruction::Add(x, kk))
    } else if class == 0x8 {
        if n == 0x0 {
            Some(Instruction::Mov(x, y))
        } else if n == 0x1 {
            Some(Instruction::Or(x, y))
        } else if n == 0x2 {
            Some(Instruction::And(x, y))
        } else if n == 0x3 {
            Some(Instruction::Xor(x, y))
        } else if n == 0x4 {
            Some(Instruction::Addr(x, y))
        } else if n == 0x5 {
            Some(Instruction::Sub(x, y))
        } else if n == 0x6 {
            Some(Instruction::Shr(x))
        } else if n == 0x7 {
            Some(Instruction::Ssub(x, y))
        } else if n == 0xE {
            Some(Instruction::Shl(x))
        } else {
            None
        }
    } else if class == 0x9 {
        Some(Instruction::Skrne(x, y))
    } else if class == 0xA {
        Some(Instruction::Loadi(nnn))
    } else if class == 0xB {
        Some(Instruction::Jumpi(nnn))
    } else if class == 0xC {
        Some(Instruction::Rand(x, kk))
    } else if class == 0xD {
        Some(Instruction::Draw(x, y, n))
    } else if class == 0xE {
        if kk == 0x9E {
            Some(Instruction::Skpr(x))
        } else if kk == 0xA1 {
            Some(Instruction::Skup(x))
        } else {
            None
        }
    } else {
        if kk == 0x07 {
            Some(Instruction::Moved(x))
        } else if kk == 0x0A {
            Some(Instruction::Keyd(x))
        } else if kk == 0x15 {
            Some(Instruction::Loadd(x))
        } else if kk == 0x18 {
            Some(Instruction::Loads(x))
        } else if kk == 0x1E {
            Some(Instruction::Addi(x))
        } else if kk == 0x29 {
            Some(Instruction::Ldspr(x))
        } else if kk == 0x33 {
            Some(Instruction::Bcd(x))
        } else if kk == 0x55 {
            Some(Instruction::Mstor(x))
        } else if kk == 0x65 {
            Some(Instruction::Mread(x))
        } else {
            None
        }
    }
}

/// Decodes an instruction word.
pub fn decode(opcode: Opcode) -> (r: Option<Instruction>)
    ensures
        r == decode_spec(opcode.opcode),
        r matches Some(i) ==> i.wf(),
{
    let x = opcode.x();
    let y = opcode.y();
    let n = opcode.n();
    let kk = opcode.kk();
    let nnn = opcode.nnn();
    let t = opcode.t();
    if t == 0x0000 {
        if kk == 0xE0 {
            Some(Instruction::Clr)
        } else if kk == 0xEE {
            Some(Instruction::Ret)
        } else {
            None
        }
    } else if t == 0x1000 {
        Some(Instruction::Jump(nnn))
    } else if t == 0x2000 {
        Some(Instruction::Call(nnn))
    } else if t == 0x3000 {
        Some(Instruction::Ske(x, kk))
    } else if t == 0x4000 {
        Some(Instruction::Skne(x, kk))
    } else if t == 0x5000 {
        Some(Instruction::Skre(x, y))
    } else if t == 0x6000 {
        Some(Instruction::Load(x, kk))
    } else if t == 0x7000 {
        Some(Instruction::Add(x, kk))
    } else if t == 0x8000 {
        if n == 0x0 {
            Some(Instruction::Mov(x, y))
        } else if n == 0x1 {
            Some(Instruction::Or(x, y))
        } else if n == 0x2 {
            Some(Instruction::And(x, y))
        } else if n == 0x3 {
            Some(Instruction::Xor(x, y))
        } else if n == 0x4 {
            Some(Instruction::Addr(x, y))
        } else if n == 0x5 {
            Some(Instruction::Sub(x, y))
        } else if n == 0x6 {
            Some(Instruction::Shr(x))
        } else if n == 0x7 {
            Some(Instruction::Ssub(x, y))
        } else if n == 0xE {
            Some(Instruction::Shl(x))
        } else {
            None
        }
    } else if t == 0x9000 {
        Some(Instruction::Skrne(x, y))
    } else if t == 0xA000 {
        Some(Instruction::Loadi(nnn))
    } else if t == 0xB000 {
        Some(Instruction::Jumpi(nnn))
    } else if t == 0xC000 {
        Some(Instruction::Rand(x, kk))
    } else if t == 0xD000 {
        Some(Instruction::Draw(x, y, n))
    } else if t == 0xE000 {
        if kk == 0x9E {
            Some(Instruction::Skpr(x))
        } else if kk == 0xA1 {
            Some(Instruction::Skup(x))
        } else {
            None
        }
    } else {
        if kk == 0x07 {
            Some(Instruction::Moved(x))
        } else if kk == 0x0A {
            Some(Instruction::Keyd(x))
        } else if kk == 0x15 {
            Some(Instruction::Loadd(x))
        } else if kk == 0x18 {
            Some(Instruction::Loads(x))
        } else if kk == 0x1E {
            Some(Instruction::Addi(x))
        } else if kk == 0x29 {
            Some(Instruction::Ldspr(x))
        } else if kk == 0x33 {
            Some(Instruction::Bcd(x))
        } else if kk == 0x55 {
            Some(Instruction::Mstor(x))
        } else if kk == 0x65 {
            Some(Instruction::Mread(x))
        } else {
            None
        }
    }
}

} // verus!
