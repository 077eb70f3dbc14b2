//! The mathematical model of the machine: its state, and what each
//! instruction, a step and a batch of steps do to it.

use vstd::prelude::*;
use crate::fault::Fault;
use crate::instruction::{decode_spec, Instruction};
use crate::opcode::Opcode;
use crate::screen::{blank_screen, blit, collides, screen_wf};
use crate::text::hex4;

verus! {

pub const MEMORY_SIZE: usize = 4096;

/// Where programs are loaded and where execution starts.
pub const PROGRAM_START: u16 = 0x200;

pub const FONTSET_BYTES_PER_CHAR: u16 = 5;

/// The sixteen hexadecimal glyphs, five rows each.
pub open spec fn font() -> Seq<u8> {
    seq![
        0xF0u8, 0x90, 0x90, 0x90, 0xF0,
        0x20, 0x60, 0x20, 0x20, 0x70,
        0xF0, 0x10, 0xF0, 0x80, 0xF0,
        0xF0, 0x10, 0xF0, 0x10, 0xF0,
        0x90, 0x90, 0xF0, 0x10, 0x10,
        0xF0, 0x80, 0xF0, 0x10, 0xF0,
        0xF0, 0x80, 0xF0, 0x90, 0xF0,
        0xF0, 0x10, 0x20, 0x40, 0x40,
        0xF0, 0x90, 0xF0, 0x90, 0xF0,
        0xF0, 0x90, 0xF0, 0x10, 0xF0,
        0xF0, 0x90, 0xF0, 0x90, 0x90,
        0xE0, 0x90, 0xE0, 0x90, 0xE0,
        0xF0, 0x80, 0x80, 0x80, 0xF0,
        0xE0, 0x90, 0x90, 0x90, 0xE0,
        0xF0, 0x80, 0xF0, 0x80, 0xF0,
        0xF0, 0x80, 0xF0, 0x80, 0x80,
    ]
}

/// The index of the first `true` at or after `from`, if there is one.
pub open spec fn first_pressed_from(keys: Seq<bool>, from: int) -> Option<int>
    decreases keys.len() - from,
{
    if from >= keys.len() {
        None
    } else if keys[from] {
        Some(from)
    } else {
        first_pressed_from(keys, from + 1)
    }
}

/// The lowest-numbered pressed key.
pub open spec fn first_pressed(keys: Seq<bool>) -> Option<int> {
    first_pressed_from(keys, 0)
}

/// The whole state of the machine.
#[verifier::ext_equal]
pub struct Machine {
    /// Address of the next instruction.
    pub pc: int,
    /// The index register `I`.
    pub index: int,
    pub memory: Seq<u8>,
    /// `V0`..`VF`.
    pub registers: Seq<u8>,
    /// Return addresses, innermost last.
    pub stack: Seq<u16>,
    pub delay_timer: u8,
    pub sound_timer: u8,
    pub keys: Seq<bool>,
    /// Rows of pixels, top row first.
    pub graphics: Seq<Seq<bool>>,
    pub draw_flag: bool,
    pub done: bool,
    pub debug: bool,
}

impl Machine {
    /// The state is one that a machine can be in.
    pub open spec fn wf(self) -> bool {
        &&& 0 <= self.pc < MEMORY_SIZE
        &&& 0 <= self.index < MEMORY_SIZE
        &&& self.memory.len() == MEMORY_SIZE
        &&& self.registers.len() == 16
        &&& self.keys.len() == 16
        &&& screen_wf(self.graphics)
    }

    /// The value of register `Vx`.
    pub open spec fn v(self, x: u8) -> u8 {
        self.registers[x as int]
    }

    pub open spec fn set_v(self, x: u8, value: u8) -> Machine {
        Machine { registers: self.registers.update(x as int, value), ..self }
    }

    /// `VF` set to 1 or 0.
    pub open spec fn set_flag(self, flag: bool) -> Machine {
        self.set_v(0xF, if flag { 1u8 } else { 0u8 })
    }

    pub open spec fn advance(self, by: int) -> Machine {
        Machine { pc: self.pc + by, ..self }
    }

    /// Skip the next instruction if `condition` holds, else go on to it.
    pub open spec fn skip_if(self, condition: bool) -> Machine {
        self.advance(if condition { 4 } else { 2 })
    }

    /// The big-endian word at `at`.
    pub open spec fn word_at(self, at: int) -> u16 {
        (self.memory[at] as int * 0x100 + self.memory[at + 1] as int) as u16
    }

    /// A freshly constructed machine: everything zero but the program
    /// counter and the font table.
    pub open spec fn initial() -> Machine {
        Machine {
            pc: PROGRAM_START as int,
            index: 0,
            memory: Seq::new(MEMORY_SIZE as nat, |a: int| if a < font().len() { font()[a] } else { 0u8 }),
            registers: Seq::new(16, |i: int| 0u8),
            stack: Seq::empty(),
            delay_timer: 0,
            sound_timer: 0,
            keys: Seq::new(16, |i: int| false),
            graphics: blank_screen(),
            draw_flag: false,
            done: false,
            debug: false,
        }
    }

    /// The font table written at address 0 and `program` at `PROGRAM_START`;
    /// the program counter at `PROGRAM_START`; all else as before.
    pub open spec fn loaded(self, program: Seq<u8>) -> Machine {
        Machine {
            pc: PROGRAM_START as int,
            memory: Seq::new(
                MEMORY_SIZE as nat,
                |a: int|
                    if a < font().len() {
                        font()[a]
                    } else if PROGRAM_START <= a < PROGRAM_START + program.len() {
                        program[a - PROGRAM_START]
                    } else {
                        self.memory[a]
                    },
            ),
            ..self
        }
    }

    /// The first `keys.len()` key states replaced by `keys`.
    pub open spec fn with_keys(self, keys: Seq<bool>) -> Machine {
        Machine {
            keys: Seq::new(16, |i: int| if i < keys.len() { keys[i] } else { self.keys[i] }),
            ..self
        }
    }

    pub open spec fn without_keys(self) -> Machine {
        Machine { keys: Seq::new(16, |i: int| false), ..self }
    }

    /// Back to the entry point of the loaded program: memory, key states
    /// and the debug switch stay.
    pub open spec fn restarted(self) -> Machine {
        Machine {
            pc: PROGRAM_START as int,
            index: 0,
            registers: Seq::new(16, |i: int| 0u8),
            stack: Seq::empty(),
            delay_timer: 0,
            sound_timer: 0,
            graphics: blank_screen(),
            draw_flag: false,
            done: false,
            ..self
        }
    }

    /// Both timers count down by one, not below zero.
    pub open spec fn ticked(self) -> Machine {
        Machine {
            delay_timer: if self.delay_timer > 0 { (self.delay_timer - 1) as u8 } else { 0 },
            sound_timer: if self.sound_timer > 0 { (self.sound_timer - 1) as u8 } else { 0 },
            ..self
        }
    }

    /// The tick brings the sound timer to zero: a tone is due.
    pub open spec fn tone_due(self) -> bool {
        self.sound_timer == 1
    }

    // The instructions.

    pub open spec fn clr(self) -> Machine {
        Machine { graphics: blank_screen(), draw_flag: true, ..self }.advance(2)
    }

    pub open spec fn ret(self) -> Machine {
        Machine { pc: self.stack.last() as int, stack: self.stack.drop_last(), ..self }
    }

    /// A jump to its own address halts the machine.
    pub open spec fn jump(self, nnn: u16) -> Machine {
        if self.pc == nnn {
            Machine { done: true, ..self }
        } else {
            Machine { pc: nnn as int, ..self }
        }
    }

    pub open spec fn call(self, nnn: u16) -> Machine {
        Machine { pc: nnn as int, stack: self.stack.push((self.pc + 2) as u16), ..self }
    }

    pub open spec fn ske(self, x: u8, kk: u8) -> Machine {
        self.skip_if(self.v(x) == kk)
    }

    pub open spec fn skne(self, x: u8, kk: u8) -> Machine {
        self.skip_if(self.v(x) != kk)
    }

    pub open spec fn skre(self, x: u8, y: u8) -> Machine {
        self.skip_if(self.v(x) == self.v(y))
    }

    pub open spec fn skrne(self, x: u8, y: u8) -> Machine {
        self.skip_if(self.v(x) != self.v(y))
    }

    pub open spec fn load(self, x: u8, kk: u8) -> Machine {
        self.set_v(x, kk).advance(2)
    }

    pub open spec fn add(self, x: u8, kk: u8) -> Machine {
        self.set_v(x, ((self.v(x) + kk) % 0x100) as u8).advance(2)
    }

    pub open spec fn mov(self, x: u8, y: u8) -> Machine {
        self.set_v(x, self.v(y)).advance(2)
    }

    pub open spec fn or(self, x: u8, y: u8) -> Machine {
        self.set_v(x, self.v(x) | self.v(y)).advance(2)
    }

    pub open spec fn and(self, x: u8, y: u8) -> Machine {
        self.set_v(x, self.v(x) & self.v(y)).advance(2)
    }

    pub open spec fn xor(self, x: u8, y: u8) -> Machine {
        self.set_v(x, self.v(x) ^ self.v(y)).advance(2)
    }

    /// `VF` = carry, then `Vx` = the low eight bits of the sum.
    pub open spec fn addr(self, x: u8, y: u8) -> Machine {
        let sum = self.v(x) + self.v(y);
        self.set_flag(sum > 0xFF).set_v(x, (sum % 0x100) as u8).advance(2)
    }

    /// `VF` = 1 if `Vy > Vx`, then `Vx` = `Vx - Vy` modulo 256.
    pub open spec fn sub(self, x: u8, y: u8) -> Machine {
        let vx = self.v(x);
        let vy = self.v(y);
        self.set_flag(vy > vx).set_v(x, ((vx - vy) % 0x100) as u8).advance(2)
    }

    /// `VF` = 1 if `Vx > Vy`, then `Vx` = `Vy - Vx` modulo 256.
    pub open spec fn ssub(self, x: u8, y: u8) -> Machine {
        let vx = self.v(x);
        let vy = self.v(y);
        self.set_flag(vx > vy).set_v(x, ((vy - vx) % 0x100) as u8).advance(2)
    }

    /// `VF` = the low bit of `Vx`, then `Vx` halved.
    pub open spec fn shr(self, x: u8) -> Machine {
        let flagged = self.set_v(0xF, self.v(x) % 2);
        flagged.set_v(x, flagged.v(x) / 2).advance(2)
    }

    /// `VF` = the high bit of `Vx`, then `Vx` doubled modulo 256.
    pub open spec fn shl(self, x: u8) -> Machine {
        let flagged = self.set_v(0xF, self.v(x) / 0x80);
        flagged.set_v(x, ((flagged.v(x) * 2) % 0x100) as u8).advance(2)
    }

    pub open spec fn loadi(self, nnn: u16) -> Machine {
        Machine { index: nnn as int, ..self }.advance(2)
    }

    pub open spec fn jumpi(self, nnn: u16) -> Machine {
        Machine { pc: self.v(0) + nnn, ..self }
    }

    pub open spec fn rand(self, x: u8, kk: u8, random: u8) -> Machine {
        self.set_v(x, random & kk).advance(2)
    }

    /// The `n` bytes at `I`.
    pub open spec fn sprite(self, n: u8) -> Seq<u8> {
        self.memory.subrange(self.index, self.index + n)
    }

    /// `VF` is cleared, then the sprite is XOR-ed onto the screen at
    /// (`Vx`, `Vy`) and `VF` says whether it hit a pixel that was on.
    pub open spec fn draw(self, x: u8, y: u8, n: u8) -> Machine {
        let cleared = self.set_flag(false);
        let ox = cleared.v(x) as int;
        let oy = cleared.v(y) as int;
        let sprite = self.sprite(n);
        Machine {
            graphics: blit(self.graphics, sprite, ox, oy),
            draw_flag: true,
            ..cleared.set_flag(collides(self.graphics, sprite, ox, oy))
        }.advance(2)
    }

    pub open spec fn key_down(self, x: u8) -> bool {
        self.keys[self.v(x) as int]
    }

    pub open spec fn skpr(self, x: u8) -> Machine {
        if self.key_down(x) {
            self.without_keys().advance(4)
        } else {
            self.advance(2)
        }
    }

    pub open spec fn skup(self, x: u8) -> Machine {
        if !self.key_down(x) {
            self.without_keys().advance(4)
        } else {
            self.advance(2)
        }
    }

    pub open spec fn moved(self, x: u8) -> Machine {
        self.set_v(x, self.delay_timer).advance(2)
    }

    /// With a key down, `Vx` = the lowest such key; with none, nothing
    /// changes, so that the instruction is fetched again.
    pub open spec fn keyd(self, x: u8) -> Machine {
        match first_pressed(self.keys) {
            Some(key) => self.set_v(x, key as u8).advance(2),
            None => self,
        }
    }

    pub open spec fn loadd(self, x: u8) -> Machine {
        Machine { delay_timer: self.v(x), ..self }.advance(2)
    }

    pub open spec fn loads(self, x: u8) -> Machine {
        Machine { sound_timer: self.v(x), ..self }.advance(2)
    }

    /// `VF` = 1 if the sum passes `0xFFF`; `I` keeps its low twelve bits.
    pub open spec fn addi(self, x: u8) -> Machine {
        let sum = self.v(x) + self.index;
        Machine { index: sum % 0x1000, ..self.set_flag(sum > 0xFFF) }.advance(2)
    }

    pub open spec fn ldspr(self, x: u8) -> Machine {
        Machine { index: self.v(x) * FONTSET_BYTES_PER_CHAR, ..self }.advance(2)
    }

    /// Hundreds, tens and ones of `Vx` at `I`, `I+1`, `I+2`.
    pub open spec fn bcd(self, x: u8) -> Machine {
        let value = self.v(x);
        Machine {
            memory: self.memory.update(self.index, value / 100).update(
                self.index + 1,
                (value / 10) % 10,
            ).update(self.index + 2, value % 10),
            ..self
        }.advance(2)
    }

    pub open spec fn mstor(self, x: u8) -> Machine {
        Machine {
            memory: Seq::new(
                self.memory.len(),
                |a: int|
                    if self.index <= a <= self.index + x {
                        self.registers[a - self.index]
                    } else {
                        self.memory[a]
                    },
            ),
            ..self
        }.advance(2)
    }

    pub open spec fn mread(self, x: u8) -> Machine {
        Machine {
            registers: Seq::new(
                self.registers.len(),
                |i: int| if i <= x { self.memory[self.index + i] } else { self.registers[i] },
            ),
            ..self
        }.advance(2)
    }

    // Execution.

    /// The state after `instruction`, disregarding faults.
    pub open spec fn effect(self, instruction: Instruction, random: u8) -> Machine {
        match instruction {
            Instruction::Clr => self.clr(),
            Instruction::Ret => self.ret(),
            Instruction::Jump(nnn) => self.jump(nnn),
            Instruction::Call(nnn) => self.call(nnn),
            Instruction::Ske(x, kk) => self.ske(x, kk),
            Instruction::Skne(x, kk) => self.skne(x, kk),
            Instruction::Skre(x, y) => self.skre(x, y),
            Instruction::Load(x, kk) => self.load(x, kk),
            Instruction::Add(x, kk) => self.add(x, kk),
            Instruction::Mov(x, y) => self.mov(x, y),
            Instruction::Or(x, y) => self.or(x, y),
            Instruction::And(x, y) => self.and(x, y),
            Instruction::Xor(x, y) => self.xor(x, y),
            Instruction::Addr(x, y) => self.addr(x, y),
            Instruction::Sub(x, y) => self.sub(x, y),
            Instruction::Shr(x) => self.shr(x),
            Instruction::Ssub(x, y) => self.ssub(x, y),
            Instruction::Shl(x) => self.shl(x),
            Instruction::Skrne(x, y) => self.skrne(x, y),
            Instruction::Loadi(nnn) => self.loadi(nnn),
            Instruction::Jumpi(nnn) => self.jumpi(nnn),
            Instruction::Rand(x, kk) => self.rand(x, kk, random),
            Instruction::Draw(x, y, n) => self.draw(x, y, n),
            Instruction::Skpr(x) => self.skpr(x),
            Instruction::Skup(x) => self.skup(x),
            Instruction::Moved(x) => self.moved(x),
            Instruction::Keyd(x) => self.keyd(x),
            Instruction::Loadd(x) => self.loadd(x),
            Instruction::Loads(x) => self.loads(x),
            Instruction::Addi(x) => self.addi(x),
            Instruction::Ldspr(x) => self.ldspr(x),
            Instruction::Bcd(x) => self.bcd(x),
            Instruction::Mstor(x) => self.mstor(x),
            Instruction::Mread(x) => self.mread(x),
        }
    }

    /// The fault that `instruction` meets in what it reads or writes.
    pub open spec fn access_fault(self, instruction: Instruction) -> Option<Fault> {
        match instruction {
            Instruction::Ret => if self.stack.len() == 0 {
                Some(Fault::StackUnderflow)
            } else {
                None
            },
            Instruction::Skpr(x) | Instruction::Skup(x) => if self.v(x) >= 16 {
                Some(Fault::OutOfBounds)
            } else {
                None
            },
            Instruction::Draw(_, _, n) => if self.index + n > MEMORY_SIZE {
                Some(Fault::OutOfBounds)
            } else {
                None
            },
            Instruction::Bcd(_) => if self.index + 3 > MEMORY_SIZE {
                Some(Fault::OutOfBounds)
            } else {
                None
            },
            Instruction::Mstor(x) | Instruction::Mread(x) => if self.index + x + 1 > MEMORY_SIZE {
                Some(Fault::OutOfBounds)
            } else {
                None
            },
            _ => None,
        }
    }

    /// Where the program counter stands after `instruction`.
    pub open spec fn next_pc(self, instruction: Instruction) -> int {
        match instruction {
            Instruction::Ret => self.stack.last() as int,
            Instruction::Jump(nnn) | Instruction::Call(nnn) => nnn as int,
            Instruction::Jumpi(nnn) => self.v(0) + nnn,
            Instruction::Ske(x, kk) => self.pc + if self.v(x) == kk { 4int } else { 2 },
            Instruction::Skne(x, kk) => self.pc + if self.v(x) != kk { 4int } else { 2 },
            Instruction::Skre(x, y) => self.pc + if self.v(x) == self.v(y) { 4int } else { 2 },
            Instruction::Skrne(x, y) => self.pc + if self.v(x) != self.v(y) { 4int } else { 2 },
            Instruction::Skpr(x) => self.pc + if self.key_down(x) { 4int } else { 2 },
            Instruction::Skup(x) => self.pc + if !self.key_down(x) { 4int } else { 2 },
            Instruction::Keyd(_) => self.pc + if first_pressed(self.keys) is Some { 2int } else { 0 },
            _ => self.pc + 2,
        }
    }

    /// The fault that stops `instruction`: one in what it accesses, or a
    /// program counter that would leave memory.
    pub open spec fn fault_of(self, instruction: Instruction) -> Option<Fault> {
        if self.access_fault(instruction) is Some {
            self.access_fault(instruction)
        } else if self.next_pc(instruction) >= MEMORY_SIZE {
            Some(Fault::OutOfBounds)
        } else {
            None
        }
    }

    /// `instruction` is well formed and runs without a fault.
    pub open spec fn permits(self, instruction: Instruction) -> bool {
        instruction.wf() && self.fault_of(instruction) is None
    }

    /// One step: the next state and whether a tone is due, or the fault
    /// that stopped it. `random` is the byte that `Rand` would use.
    pub open spec fn step(self, random: u8) -> Result<(Machine, bool), Fault> {
        if self.done {
            Ok((self, false))
        } else if self.pc + 1 >= MEMORY_SIZE {
            Err(Fault::OutOfBounds)
        } else {
            let word = self.word_at(self.pc);
            match decode_spec(word) {
                None => Err(Fault::UnknownInstruction(word)),
                Some(instruction) => match self.fault_of(instruction) {
                    Some(fault) => Err(fault),
                    None => Ok((self.ticked().effect(instruction, random), self.tone_due())),
                },
            }
        }
    }

    /// Where the listing that starts at `from` ends: at the first word
    /// that is zero, or where no whole word is left in memory.
    pub open spec fn listing_end(self, from: int) -> int
        decreases MEMORY_SIZE - from,
    {
        if from + 1 >= MEMORY_SIZE || self.word_at(from) == 0 {
            from
        } else {
            self.listing_end(from + 2)
        }
    }

    /// The listing's line for the word at `at`: the address, a colon and a
    /// space, then the word as [`Opcode::display_text`] renders it.
    pub open spec fn listing_line(self, at: int) -> Seq<char> {
        hex4(at) + ": "@ + (Opcode { opcode: self.word_at(at) }).display_text()
    }

    /// `after` and `res` are what a step from `self` with `random` gives:
    /// on a fault nothing has changed.
    pub open spec fn step_yields(self, random: u8, after: Machine, res: Result<bool, Fault>) -> bool {
        match res {
            Ok(tone) => self.step(random) == Ok::<(Machine, bool), Fault>((after, tone)),
            Err(fault) => self.step(random) == Err::<(Machine, bool), Fault>(fault) && after
                == self,
        }
    }

    /// One step for each byte of `randoms`, in order, up to the first
    /// fault: the state reached, and the number of tones or that fault.
    pub open spec fn run(self, randoms: Seq<u8>) -> (Machine, Result<nat, Fault>)
        decreases randoms.len(),
    {
        if randoms.len() == 0 {
            (self, Ok(0))
        } else {
            let (before, so_far) = self.run(randoms.drop_last());
            match so_far {
                Err(fault) => (before, Err(fault)),
                Ok(tones) => match before.step(randoms.last()) {
                    Ok((after, tone)) => (after, Ok(tones + if tone { 1nat } else { 0 })),
                    Err(fault) => (before, Err(fault)),
                },
            }
        }
    }

    /// Only a machine that is about to execute `Rand` uses the random byte.
    pub open spec fn wants_random(self) -> bool {
        &&& !self.done
        &&& self.pc + 1 < MEMORY_SIZE
        &&& self.memory[self.pc] / 0x10 == 0xC
    }
}

impl Machine {
    /// A step that is not about to execute `Rand` comes out the same
    /// whatever the random byte.
    pub proof fn lemma_random_unused(self, random: u8, other: u8)
        requires
            self.wf(),
            !self.wants_random(),
        ensures
            self.step(random) == self.step(other),
    {
        if !self.done && self.pc + 1 < MEMORY_SIZE {
            let high = self.memory[self.pc];
            let word = self.word_at(self.pc);
            assert(word as int / 0x1000 == high / 0x10);
        }
    }
}

} // verus!
