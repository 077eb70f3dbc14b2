//! Decoding of a 16-bit instruction word into its addressing fields.

use vstd::prelude::*;
use vstd::string::StringExecFns;
use crate::text::{decimal, hex4, push_decimal, push_hex4};

verus! {

/// One fetched instruction word.
///
/// Every 16-bit value is a valid `Opcode`; whether it denotes a defined
/// instruction is decided by [`crate::instruction::decode`].
#[derive(Clone, Copy, Debug, PartialEq, Eq, Structural)]
pub struct Opcode {
    pub opcode: u16,
}

impl Opcode {
    /// The instruction class: the top nibble, in place (`0x0000`, `0x1000`, ..., `0xF000`).
    pub open spec fn t_field(self) -> int {
        (self.opcode as int / 0x1000) * 0x1000
    }

    /// The second nibble (bits 8 to 11).
    pub open spec fn x_field(self) -> int {
        (self.opcode as int / 0x100) % 0x10
    }

    /// The third nibble (bits 4 to 7).
    pub open spec fn y_field(self) -> int {
        (self.opcode as int / 0x10) % 0x10
    }

    /// The fourth nibble (bits 0 to 3).
    pub open spec fn n_field(self) -> int {
        self.opcode as int % 0x10
    }

    /// The low byte.
    pub open spec fn kk_field(self) -> int {
        self.opcode as int % 0x100
    }

    /// The low twelve bits.
    pub open spec fn nnn_field(self) -> int {
        self.opcode as int % 0x1000
    }

    pub fn new(opcode: u16) -> (r: Opcode)
        ensures
            r.opcode == opcode,
    {
        Opcode { opcode }
    }

    /// Register index held in bits 8 to 11.
    pub fn x(&self) -> (r: u8)
        ensures
            r == self.x_field(),
            r < 16,
    {
        let w: u16 = self.opcode;
        assert((w & 0x0f00) >> 8 == (w / 0x100) % 0x10) by (bit_vector);
        ((w & 0x0f00) >> 8) as u8
    }

    /// Register index held in bits 4 to 7.
    pub fn y(&self) -> (r: u8)
        ensures
            r == self.y_field(),
            r < 16,
    {
        let w: u16 = self.opcode;
        assert((w & 0x00f0) >> 4 == (w / 0x10) % 0x10) by (bit_vector);
        ((w & 0x00f0) >> 4) as u8
    }

    /// Four-bit immediate held in bits 0 to 3.
    pub fn n(&self) -> (r: u8)
        ensures
            r == self.n_field(),
            r < 16,
    {
        let w: u16 = self.opcode;
        assert(w & 0x000f == w % 0x10) by (bit_vector);
        (w & 0x000f) as u8
    }

    /// Eight-bit immediate held in the low byte.
    pub fn kk(&self) -> (r: u8)
        ensures
            r == self.kk_field(),
    {
        let w: u16 = self.opcode;
        assert(w & 0x00ff == w % 0x100) by (bit_vector);
        (w & 0x00ff) as u8
    }

    /// Twelve-bit address held in the low three nibbles.
    pub fn nnn(&self) -> (r: u16)
        ensures
            r == self.nnn_field(),
            r < 0x1000,
    {
        let w: u16 = self.opcode;
        assert(w & 0x0fff == w % 0x1000) by (bit_vector);
        w & 0x0fff
    }

    /// Instruction class: the word with everything but its top nibble cleared.
    pub fn t(&self) -> (r: u16)
        ensures
            r == self.t_field(),
    {
        let w: u16 = self.opcode;
        assert(w & 0xf000 == (w / 0x1000) * 0x1000) by (bit_vector);
        w & 0xf000
    }

    /// `name`, then register `Vx` and the low byte: `NAME Vx, 0x00kk`.
    pub open spec fn x_kk_text(self, name: Seq<char>) -> Seq<char> {
        name + "V"@ + decimal(self.x_field() as nat) + ", "@ + hex4(self.kk_field())
    }

    /// `name`, then registers `Vx` and `Vy`: `NAME Vx, Vy`.
    pub open spec fn x_y_text(self, name: Seq<char>) -> Seq<char> {
        name + "V"@ + decimal(self.x_field() as nat) + ", V"@ + decimal(self.y_field() as nat)
    }

    /// `name`, then register `Vx`: `NAME Vx`.
    pub open spec fn x_text(self, name: Seq<char>) -> Seq<char> {
        name + "V"@ + decimal(self.x_field() as nat)
    }

    /// `name`, then the low twelve bits: `NAME 0x0nnn`.
    pub open spec fn nnn_text(self, name: Seq<char>) -> Seq<char> {
        name + hex4(self.nnn_field())
    }

    /// The mnemonic of the word, names padded to six columns. Words of
    /// class 0 other than `00E0` and `00EE` read `SYS`; other words that
    /// denote no instruction read `UNUS`.
    pub open spec fn mnemonic_text(self) -> Seq<char> {
        let class = self.opcode as int / 0x1000;
        let n = self.n_field();
        let kk = self.kk_field();
        if class == 0x0 {
            if self.opcode == 0x00E0 {
                "CLR"@
            } else if self.opcode == 0x00EE {
                "RTS"@
            } else {
                "SYS "@ + decimal(self.nnn_field() as nat)
            }
        } else if class == 0x1 {
            self.nnn_text("JUMP  "@)
        } else if class == 0x2 {
            self.nnn_text("CALL  "@)
        } else if class == 0x3 {
            self.x_kk_text("SKE   "@)
        } else if class == 0x4 {
            self.x_kk_text("SKNE  "@)
        } else if class == 0x5 {
            self.x_y_text("SKRE  "@)
        } else if class == 0x6 {
            self.x_kk_text("LOAD  "@)
        } else if class == 0x7 {
            self.x_kk_text("ADD   "@)
        } else if class == 0x8 {
            if n == 0x0 {
                self.x_y_text("MOVE  "@)
            } else if n == 0x1 {
                self.x_y_text("OR    "@)
            } else if n == 0x2 {
                self.x_y_text("AND   "@)
            } else if n == 0x3 {
                self.x_y_text("XOR   "@)
            } else if n == 0x4 {
                self.x_y_text("ADDR  "@)
            } else if n == 0x5 {
                self.x_y_text("SUB   "@)
            } else if n == 0x6 {
                self.x_y_text("SHR   "@)
            } else if n == 0x7 {
                self.x_y_text("SSUB  "@)
            } else if n == 0xE {
                self.x_y_text("SHL   "@)
            } else {
                "UNUS"@
            }
        } else if class == 0x9 {
            self.x_text("SKRNE "@) + ", "@ + hex4(self.y_field())
        } else if class == 0xA {
            self.nnn_text("LOADI "@)
        } else if class == 0xB {
            self.nnn_text("JUMPI "@)
        } else if class == 0xC {
            self.x_kk_text("RAND  "@)
        } else if class == 0xD {
            self.x_y_text("DRAW  "@) + ", "@ + hex4(n)
        } else if class == 0xE {
            if kk == 0x9E {
                self.x_text("SKPR  "@)
            } else if kk == 0xA1 {
                self.x_text("SKUP  "@)
            } else {
                "UNUS"@
            }
        } else {
            if kk == 0x07 {
                self.x_text("MOVED "@)
            } else if kk == 0x0A {
                self.x_text("KEYD  "@)
            } else if kk == 0x15 {
                self.x_text("LOADD "@)
            } else if kk == 0x18 {
                self.x_text("LOADS "@)
            } else if kk == 0x1E {
                self.x_text("ADDI  "@)
            } else if kk == 0x29 {
                self.x_text("LDSPR "@)
            } else if kk == 0x33 {
                self.x_text("BCD   "@)
            } else if kk == 0x55 {
                self.x_text("STOR  "@)
            } else if kk == 0x65 {
                self.x_text("READ  "@)
            } else {
                "UNUS"@
            }
        }
    }

    /// The word in hexadecimal, a tab, and the mnemonic.
    pub open spec fn display_text(self) -> Seq<char> {
        hex4(self.opcode as int) + "\t"@ + self.mnemonic_text()
    }

    fn x_kk(&self, name: &str) -> (text: String)
        ensures
            text@ == self.x_kk_text(name@),
    {
        let mut text = String::from_str(name);
        text.append("V");
        push_decimal(&mut text, self.x() as u16);
        text.append(", ");
        push_hex4(&mut text, self.kk() as u16);
        text
    }

    fn x_y(&self, name: &str) -> (text: String)
        ensures
            text@ == self.x_y_text(name@),
    {
        let mut text = String::from_str(name);
        text.append("V");
        push_decimal(&mut text, self.x() as u16);
        text.append(", V");
        push_decimal(&mut text, self.y() as u16);
        text
    }

    fn x_only(&self, name: &str) -> (text: String)
        ensures
            text@ == self.x_text(name@),
    {
        let mut text = String::from_str(name);
        text.append("V");
        push_decimal(&mut text, self.x() as u16);
        text
    }

    fn nnn_only(&self, name: &str) -> (text: String)
        ensures
            text@ == self.nnn_text(name@),
    {
        let mut text = String::from_str(name);
        push_hex4(&mut text, self.nnn());
        text
    }

    /// The mnemonic of the word, for diagnostics.
    pub fn mnemonic(&self) -> (text: String)
        ensures
            text@ == self.mnemonic_text(),
    {
        let t = self.t();
        if t == 0x0000 {
            if self.opcode == 0x00e0 {
                String::from_str("CLR")
            } else if self.opcode == 0x00ee {
                String::from_str("RTS")
            } else {
                let mut text = String::from_str("SYS ");
                push_decimal(&mut text, self.nnn());
                text
            }
        } else if t == 0x1000 {
            self.nnn_only("JUMP  ")
        } else if t == 0x2000 {
            self.nnn_only("CALL  ")
        } else if t == 0x3000 {
            self.x_kk("SKE   ")
        } else if t == 0x4000 {
            self.x_kk("SKNE  ")
        } else if t == 0x5000 {
            self.x_y("SKRE  ")
        } else if t == 0x6000 {
            self.x_kk("LOAD  ")
        } else if t == 0x7000 {
            self.x_kk("ADD   ")
        } else if t == 0x8000 {
            let n = self.n();
            if n == 0x0 {
                self.x_y("MOVE  ")
            } else if n == 0x1 {
                self.x_y("OR    ")
            } else if n == 0x2 {
                self.x_y("AND   ")
            } else if n == 0x3 {
                self.x_y("XOR   ")
            } else if n == 0x4 {
                self.x_y("ADDR  ")
            } else if n == 0x5 {
                self.x_y("SUB   ")
            } else if n == 0x6 {
                self.x_y("SHR   ")
            } else if n == 0x7 {
                self.x_y("SSUB  ")
            } else if n == 0xE {
                self.x_y("SHL   ")
            } else {
                String::from_str("UNUS")
            }
        } else if t == 0x9000 {
            let mut text = self.x_only("SKRNE ");
            text.append(", ");
            push_hex4(&mut text, self.y() as u16);
            text
        } else if t == 0xA000 {
            self.nnn_only("LOADI ")
        } else if t == 0xB000 {
            self.nnn_only("JUMPI ")
        } else if t == 0xC000 {
            self.x_kk("RAND  ")
        } else if t == 0xD000 {
            let mut text = self.x_y("DRAW  ");
            text.append(", ");
            push_hex4(&mut text, self.n() as u16);
            text
        } else if t == 0xE000 {
            let kk = self.kk();
            if kk == 0x9E {
                self.x_only("SKPR  ")
            } else if kk == 0xA1 {
                self.x_only("SKUP  ")
            } else {
                String::from_str("UNUS")
            }
        } else {
            let kk = self.kk();
            if kk == 0x07 {
                self.x_only("MOVED ")
            } else if kk == 0x0A {
                self.x_only("KEYD  ")
            } else if kk == 0x15 {
                self.x_only("LOADD ")
            } else if kk == 0x18 {
                self.x_only("LOADS ")
            } else if kk == 0x1E {
                self.x_only("ADDI  ")
            } else if kk == 0x29 {
                self.x_only("LDSPR ")
            } else if kk == 0x33 {
                self.x_only("BCD   ")
            } else if kk == 0x55 {
                self.x_only("STOR  ")
            } else if kk == 0x65 {
                self.x_only("READ  ")
            } else {
                String::from_str("UNUS")
            }
        }
    }

    /// The word as `0x` and four hexadecimal digits.
    pub fn to_hex(&self) -> (text: String)
        ensures
            text@ == hex4(self.opcode as int),
    {
        let mut text = String::new();
        push_hex4(&mut text, self.opcode);
        text
    }

    /// The word in hexadecimal, a tab, and the mnemonic.
    pub fn to_text(&self) -> (text: String)
        ensures
            text@ == self.display_text(),
    {
        let mut text = self.to_hex();
        text.append("\t");
        let mnemonic = self.mnemonic();
        text.append(mnemonic.as_str());
        text
    }
}

} // verus!
