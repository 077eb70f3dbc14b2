//! The executable machine.

use vstd::prelude::*;
use vstd::string::StringExecFns;
use crate::fault::Fault;
use crate::instruction::{decode, Instruction};
use crate::machine::{
    first_pressed, first_pressed_from, font, Machine, MEMORY_SIZE, PROGRAM_START,
};
use crate::opcode::Opcode;
use crate::random::random_byte;
use crate::screen::{blit_sprite, screen_view};
use crate::text::push_hex4;

pub use crate::machine::FONTSET_BYTES_PER_CHAR;
pub use crate::screen::{GRAPHICS_HEIGHT, GRAPHICS_WIDTH};

verus! {

const REGISTERS: usize = 16;

const FONTSET: [u8; 80] = [
    0xF0, 0x90, 0x90, 0x90, 0xF0,
    0x20, 0x60, 0x20, 0x20, 0x70,
    0xF0, 0x10, 0xF0, 0x80, 0xF0,
    0xF0, 0x10, 0xF0, 0x10, 0xF0,
    0x90, 0x90, 0xF0, 0x10, 0x10,
    0xF0, 0x80, 0xF0, 0x10, 0xF0,
    0xF0, 0x80, 0xF0, 0x90, 0xF0,
    0xF0, 0x10, 0x20, 0x40, 0x40,
    0xF0, 0x90, 0xF0, 0x90, 0xF0,
    0xF0, 0x90, 0xF0, 0x10, 0xF0,
    0xF0, 0x90, 0xF0, 0x90, 0x90,
    0xE0, 0x90, 0xE0, 0x90, 0xE0,
    0xF0, 0x80, 0x80, 0x80, 0xF0,
    0xE0, 0x90, 0x90, 0x90, 0xE0,
    0xF0, 0x80, 0xF0, 0x80, 0xF0,
    0xF0, 0x80, 0xF0, 0x80, 0x80,
];

/// Writes the font table at the start of `memory`.
fn install_font(memory: &mut [u8; 4096])
    ensures
        forall|a: int| 0 <= a < 80 ==> final(memory)@[a] == font()[a],
        forall|a: int| 80 <= a < 4096 ==> final(memory)@[a] == old(memory)@[a],
{
    let mut i: usize = 0;
    while i < 80
        invariant
            i <= 80,
            forall|a: int| 0 <= a < i ==> memory@[a] == font()[a],
            forall|a: int| i <= a < 4096 ==> memory@[a] == old(memory)@[a],
        decreases 80 - i,
    {
        memory[i] = FONTSET[i];
        i += 1;
    }
}

/// The machine. `graphics` and `draw_flag` are the frame output: the host
/// reads them and acknowledges with [`Cpu::draw_done`].
pub struct Cpu {
    program_counter: u16,
    index_register: u16,
    memory: [u8; 4096],
    delay_timer: u8,
    sound_timer: u8,
    register: [u8; REGISTERS],
    pub graphics: [[bool; GRAPHICS_WIDTH]; GRAPHICS_HEIGHT],
    pub draw_flag: bool,
    done: bool,
    debug: bool,
    stack: Vec<u16>,
    keys: [bool; 16],
}

impl View for Cpu {
    type V = Machine;

    closed spec fn view(&self) -> Machine {
        Machine {
            pc: self.program_counter as int,
            index: self.index_register as int,
            memory: self.memory@,
            registers: self.register@,
            stack: self.stack@,
            delay_timer: self.delay_timer,
            sound_timer: self.sound_timer,
            keys: self.keys@,
            graphics: screen_view(self.graphics),
            draw_flag: self.draw_flag,
            done: self.done,
            debug: self.debug,
        }
    }
}

impl Cpu {
    /// The program counter and the index register point into memory.
    pub open spec fn wf(&self) -> bool {
        self@.wf()
    }

    /// A machine with the font table installed and no program.
    pub fn new() -> (cpu: Cpu)
        ensures
            cpu.wf(),
            cpu@ == Machine::initial(),
    {
        let mut memory = [0u8; 4096];
        install_font(&mut memory);
        let cpu = Cpu {
            program_counter: 0x200,
            index_register: 0,
            memory,
            delay_timer: 0,
            sound_timer: 0,
            register: [0; REGISTERS],
            graphics: [[false; GRAPHICS_WIDTH]; GRAPHICS_HEIGHT],
            draw_flag: false,
            done: false,
            debug: false,
            stack: Vec::<u16>::new(),
            keys: [false; 16],
        };
        assert(cpu@ =~~= Machine::initial());
        cpu
    }

    pub fn program_counter(&self) -> (pc: u16)
        ensures
            pc == self@.pc,
    {
        self.program_counter
    }

    pub fn index_register(&self) -> (index: u16)
        ensures
            index == self@.index,
    {
        self.index_register
    }

    /// The value of register `Vx`.
    pub fn register(&self, x: u8) -> (value: u8)
        requires
            x < 16,
        ensures
            value == self@.v(x),
    {
        self.register[x as usize]
    }

    /// The byte at `address`.
    pub fn memory(&self, address: u16) -> (byte: u8)
        requires
            address < MEMORY_SIZE,
        ensures
            byte == self@.memory[address as int],
    {
        self.memory[address as usize]
    }

    pub fn delay_timer(&self) -> (value: u8)
        ensures
            value == self@.delay_timer,
    {
        self.delay_timer
    }

    pub fn sound_timer(&self) -> (value: u8)
        ensures
            value == self@.sound_timer,
    {
        self.sound_timer
    }

    /// Whether key `key` is down in the current snapshot.
    pub fn key(&self, key: u8) -> (down: bool)
        requires
            key < 16,
        ensures
            down == self@.keys[key as int],
    {
        self.keys[key as usize]
    }

    /// The number of return addresses on the call stack.
    pub fn stack_depth(&self) -> (depth: usize)
        ensures
            depth == self@.stack.len(),
    {
        self.stack.len()
    }

    /// Whether the machine has halted on a jump to itself.
    pub fn is_done(&self) -> (done: bool)
        ensures
            done == self@.done,
    {
        self.done
    }

    /// Whether the host is asked to trace each step.
    pub fn debug(&self) -> (debug: bool)
        ensures
            debug == self@.debug,
    {
        self.debug
    }

    /// Overwrites the first `keys.len()` key states.
    pub fn set_keys(&mut self, keys: &Vec<bool>)
        requires
            keys@.len() <= 16,
        ensures
            final(self)@ == old(self)@.with_keys(keys@),
    {
        let mut i: usize = 0;
        while i < keys.len()
            invariant
                i <= keys@.len() <= 16,
                self@ == (Machine { keys: self@.keys, ..old(self)@ }),
                forall|k: int| 0 <= k < i ==> self@.keys[k] == keys@[k],
                forall|k: int| i <= k < 16 ==> self@.keys[k] == old(self)@.keys[k],
            decreases keys@.len() - i,
        {
            self.keys[i] = keys[i];
            i += 1;
        }
    }

    /// Releases every key.
    pub fn reset_keys(&mut self)
        ensures
            final(self)@ == old(self)@.without_keys(),
    {
        self.keys = [false; 16];
    }

    /// The instruction word at the program counter.
    pub fn fetch_opcode(&self) -> (opcode: Opcode)
        requires
            self@.pc + 1 < MEMORY_SIZE,
        ensures
            opcode.opcode == self@.word_at(self@.pc),
    {
        self.opcode_at(self.program_counter as usize)
    }

    /// The big-endian word at `at`.
    pub fn opcode_at(&self, at: usize) -> (opcode: Opcode)
        requires
            at + 1 < MEMORY_SIZE,
        ensures
            opcode.opcode == self@.word_at(at as int),
    {
        let high: u16 = self.memory[at] as u16;
        let low: u16 = self.memory[at + 1] as u16;
        assert((high << 8) == high * 0x100) by (bit_vector)
            requires
                high < 0x100,
        ;
        Opcode::new((high << 8) + low)
    }

    /// Installs the font table and copies `program` to `PROGRAM_START`,
    /// where the program counter is left. A program that does not fit is
    /// refused and nothing changes.
    pub fn load_program(&mut self, program: &[u8]) -> (res: Result<(), Fault>)
        requires
            old(self).wf(),
        ensures
            final(self).wf(),
            program@.len() <= MEMORY_SIZE - PROGRAM_START ==> res is Ok
                && final(self)@ == old(self)@.loaded(program@),
            program@.len() > MEMORY_SIZE - PROGRAM_START ==> res == Err::<(), Fault>(
                Fault::OutOfBounds,
            ) && final(self)@ == old(self)@,
    {
        if program.len() > 4096 - 0x200 {
            return Err(Fault::OutOfBounds);
        }
        install_font(&mut self.memory);
        let mut i: usize = 0;
        while i < program.len()
            invariant
                i <= program@.len() <= 4096 - 0x200,
                self@ == (Machine { memory: self@.memory, ..old(self)@ }),
                forall|a: int| 0 <= a < 80 ==> self@.memory[a] == font()[a],
                forall|a: int| 0x200 <= a < 0x200 + i ==> self@.memory[a] == program@[a - 0x200],
                forall|a: int|
                    80 <= a < 4096 && !(0x200 <= a < 0x200 + i)
                        ==> self@.memory[a] == old(self)@.memory[a],
            decreases program@.len() - i,
        {
            self.memory[0x200 + i] = program[i];
            i += 1;
        }
        self.program_counter = 0x200;
        Ok(())
    }

    /// The disassembly of the loaded program, one line per word from
    /// `PROGRAM_START` up to the first zero word or the end of memory.
    pub fn dump_program(&self) -> (lines: Vec<String>)
        ensures
            PROGRAM_START + 2 * lines@.len() == self@.listing_end(PROGRAM_START as int),
            forall|k: int|
                0 <= k < lines@.len() ==> (#[trigger] lines@[k])@ == self@.listing_line(
                    PROGRAM_START + 2 * k,
                ),
    {
        let mut lines: Vec<String> = Vec::new();
        let mut i: usize = 0x200;
        while i < 0x1000
            invariant
                0x200 <= i <= 0x1000,
                i == 0x200 + 2 * lines@.len(),
                self@.listing_end(0x200) == self@.listing_end(i as int),
                forall|k: int|
                    0 <= k < lines@.len() ==> (#[trigger] lines@[k])@ == self@.listing_line(
                        0x200 + 2 * k,
                    ),
            ensures
                self@.listing_end(i as int) == i,
            decreases 0x1000 - i,
        {
            let opcode = self.opcode_at(i);
            if opcode.opcode == 0 {
                break;
            }
            let mut line = String::new();
            push_hex4(&mut line, i as u16);
            line.append(": ");
            let text = opcode.to_text();
            line.append(text.as_str());
            lines.push(line);
            i += 2;
        }
        lines
    }

    /// Acknowledges the frame: clears `draw_flag`.
    pub fn draw_done(&mut self)
        ensures
            final(self)@ == (Machine { draw_flag: false, ..old(self)@ }),
    {
        self.draw_flag = false;
    }

    /// Back to the entry point of the loaded program.
    pub fn restart(&mut self)
        ensures
            final(self).wf(),
            final(self)@ == old(self)@.restarted(),
    {
        self.program_counter = 0x200;
        self.index_register = 0;
        self.delay_timer = 0;
        self.sound_timer = 0;
        self.register = [0; REGISTERS];
        self.stack.clear();
        self.graphics = [[false; GRAPHICS_WIDTH]; GRAPHICS_HEIGHT];
        self.draw_flag = false;
        self.done = false;
        assert(self@ =~~= old(self)@.restarted());
    }

    pub fn toggle_debug(&mut self)
        ensures
            final(self)@ == (Machine { debug: !old(self)@.debug, ..old(self)@ }),
    {
        self.debug = !self.debug;
    }

    /// `ANNN`: `I = nnn`.
    fn loadi(&mut self, nnn: u16)
        requires
            old(self).wf(),
            old(self)@.permits(Instruction::Loadi(nnn)),
        ensures
            final(self).wf(),
            final(self)@ == old(self)@.loadi(nnn),
    {
        self.index_register = nnn;
        self.program_counter += 2;
    }

    /// `CXKK`: `Vx = random & kk`, where `random` is the byte that was drawn.
    fn rand(&mut self, x: u8, kk: u8, random: u8)
        requires
            old(self).wf(),
            old(self)@.permits(Instruction::Rand(x, kk)),
        ensures
            final(self).wf(),
            final(self)@ == old(self)@.rand(x, kk, random),
    {
        self.register[x as usize] = random & kk;
        self.program_counter += 2;
    }

    /// `3XKK`: skip if `Vx == kk`.
    fn ske(&mut self, x: u8, kk: u8)
        requires
            old(self).wf(),
            old(self)@.permits(Instruction::Ske(x, kk)),
        ensures
            final(self).wf(),
            final(self)@ == old(self)@.ske(x, kk),
    {
        if self.register[x as usize] == kk {
            self.program_counter += 4;
        } else {
            self.program_counter += 2;
        }
    }

    /// `7XKK`: `Vx += kk`, wrapping.
    fn add(&mut self, x: u8, kk: u8)
        requires
            old(self).wf(),
            old(self)@.permits(Instruction::Add(x, kk)),
        ensures
            final(self).wf(),
            final(self)@ == old(self)@.add(x, kk),
    {
        self.register[x as usize] = self.register[x as usize].wrapping_add(kk);
        self.program_counter += 2;
    }

    /// `1NNN`: jump to `nnn`; a jump to itself halts the machine.
    fn jump(&mut self, nnn: u16)
        requires
            old(self).wf(),
            old(self)@.permits(Instruction::Jump(nnn)),
        ensures
            final(self).wf(),
            final(self)@ == old(self)@.jump(nnn),
    {
        if self.program_counter == nnn {
            self.done = true;
            return;
        }
        self.program_counter = nnn;
    }

    /// `6XKK`: `Vx = kk`.
    fn load(&mut self, x: u8, kk: u8)
        requires
            old(self).wf(),
            old(self)@.permits(Instruction::Load(x, kk)),
        ensures
            final(self).wf(),
            final(self)@ == old(self)@.load(x, kk),
    {
        self.register[x as usize] = kk;
        self.program_counter += 2;
    }

    /// `FX15`: `delay timer = Vx`.
    fn loadd(&mut self, x: u8)
        requires
            old(self).wf(),
            old(self)@.permits(Instruction::Loadd(x)),
        ensures
            final(self).wf(),
            final(self)@ == old(self)@.loadd(x),
    {
        self.delay_timer = self.register[x as usize];
        self.program_counter += 2;
    }

    /// `4XKK`: skip if `Vx != kk`.
    fn skne(&mut self, x: u8, kk: u8)
        requires
            old(self).wf(),
            old(self)@.permits(Instruction::Skne(x, kk)),
        ensures
            final(self).wf(),
            final(self)@ == old(self)@.skne(x, kk),
    {
        if self.register[x as usize] != kk {
            self.program_counter += 4;
        } else {
            self.program_counter += 2;
        }
    }

    /// `8XY4`: `Vx += Vy`; `VF` = carry.
    fn addr(&mut self, x: u8, y: u8)
        requires
            old(self).wf(),
            old(self)@.permits(Instruction::Addr(x, y)),
        ensures
            final(self).wf(),
            final(self)@ == old(self)@.addr(x, y),
    {
        let res: u16 = self.register[x as usize] as u16 + self.register[y as usize] as u16;
        self.register[0xF] = 0;
        if res > 0xFF {
            self.register[0xF] = 1;
        }
        self.register[x as usize] = (res % 0x100) as u8;
        self.program_counter += 2;
    }

    /// `00E0`: clear the screen.
    fn clr(&mut self)
        requires
            old(self).wf(),
            old(self)@.permits(Instruction::Clr),
        ensures
            final(self).wf(),
            final(self)@ == old(self)@.clr(),
    {
        self.graphics = [[false; GRAPHICS_WIDTH]; GRAPHICS_HEIGHT];
        self.draw_flag = true;
        self.program_counter += 2;
        assert(self@ =~~= old(self)@.clr());
    }

    /// `2NNN`: push the address of the next instruction and jump to `nnn`.
    fn call(&mut self, nnn: u16)
        requires
            old(self).wf(),
            old(self)@.permits(Instruction::Call(nnn)),
        ensures
            final(self).wf(),
            final(self)@ == old(self)@.call(nnn),
    {
        self.stack.push(self.program_counter + 2);
        self.program_counter = nnn;
    }

    /// `FX07`: `Vx = delay timer`.
    fn moved(&mut self, x: u8)
        requires
            old(self).wf(),
            old(self)@.permits(Instruction::Moved(x)),
        ensures
            final(self).wf(),
            final(self)@ == old(self)@.moved(x),
    {
        self.register[x as usize] = self.delay_timer;
        self.program_counter += 2;
    }

    /// `FX1E`: `I += Vx`, kept to twelve bits; `VF` = overflow.
    fn addi(&mut self, x: u8)
        requires
            old(self).wf(),
            old(self)@.permits(Instruction::Addi(x)),
        ensures
            final(self).wf(),
            final(self)@ == old(self)@.addi(x),
    {
        let val: u16 = self.register[x as usize] as u16 + self.index_register;
        self.register[0xF] = 0;
        if val > 0xfff {
            self.register[0xF] = 1;
        }
        self.index_register = val % 0x1000;
        self.program_counter += 2;
    }

    /// `8XY0`: `Vx = Vy`.
    fn mov(&mut self, x: u8, y: u8)
        requires
            old(self).wf(),
            old(self)@.permits(Instruction::Mov(x, y)),
        ensures
            final(self).wf(),
            final(self)@ == old(self)@.mov(x, y),
    {
        self.register[x as usize] = self.register[y as usize];
        self.program_counter += 2;
    }

    /// `8XY2`: `Vx &= Vy`.
    fn and(&mut self, x: u8, y: u8)
        requires
            old(self).wf(),
            old(self)@.permits(Instruction::And(x, y)),
        ensures
            final(self).wf(),
            final(self)@ == old(self)@.and(x, y),
    {
        self.register[x as usize] = self.register[x as usize] & self.register[y as usize];
        self.program_counter += 2;
    }

    /// `8XY5`: `Vx -= Vy`, wrapping; `VF` = 1 if `Vy > Vx`.
    fn sub(&mut self, x: u8, y: u8)
        requires
            old(self).wf(),
            old(self)@.permits(Instruction::Sub(x, y)),
        ensures
            final(self).wf(),
            final(self)@ == old(self)@.sub(x, y),
    {
        let vx: u8 = self.register[x as usize];
        let vy: u8 = self.register[y as usize];
        self.register[0xF] = 0;
        if vy > vx {
            self.register[0xF] = 1;
        }
        self.register[x as usize] = vx.wrapping_sub(vy);
        self.program_counter += 2;
    }

    /// `5XY_`: skip if `Vx == Vy`.
    fn skre(&mut self, x: u8, y: u8)
        requires
            old(self).wf(),
            old(self)@.permits(Instruction::Skre(x, y)),
        ensures
            final(self).wf(),
            final(self)@ == old(self)@.skre(x, y),
    {
        if self.register[x as usize] == self.register[y as usize] {
            self.program_counter += 4;
        } else {
            self.program_counter += 2;
        }
    }

    /// `FX18`: `sound timer = Vx`.
    fn loads(&mut self, x: u8)
        requires
            old(self).wf(),
            old(self)@.permits(Instruction::Loads(x)),
        ensures
            final(self).wf(),
            final(self)@ == old(self)@.loads(x),
    {
        self.sound_timer = self.register[x as usize];
        self.program_counter += 2;
    }

    /// `8XY3`: `Vx ^= Vy`.
    fn xor(&mut self, x: u8, y: u8)
        requires
            old(self).wf(),
            old(self)@.permits(Instruction::Xor(x, y)),
        ensures
            final(self).wf(),
            final(self)@ == old(self)@.xor(x, y),
    {
        self.register[x as usize] = self.register[x as usize] ^ self.register[y as usize];
        self.program_counter += 2;
    }

    /// `9XY_`: skip if `Vx != Vy`.
    fn skrne(&mut self, x: u8, y: u8)
        requires
            old(self).wf(),
            old(self)@.permits(Instruction::Skrne(x, y)),
        ensures
            final(self).wf(),
            final(self)@ == old(self)@.skrne(x, y),
    {
        if self.register[x as usize] != self.register[y as usize] {
            self.program_counter += 4;
        } else {
            self.program_counter += 2;
        }
    }

    /// `8XY1`: `Vx |= Vy`.
    fn or(&mut self, x: u8, y: u8)
        requires
            old(self).wf(),
            old(self)@.permits(Instruction::Or(x, y)),
        ensures
            final(self).wf(),
            final(self)@ == old(self)@.or(x, y),
    {
        self.register[x as usize] = self.register[x as usize] | self.register[y as usize];
        self.program_counter += 2;
    }

    /// `8XY7`: `Vx = Vy - Vx`, wrapping; `VF` = 1 if `Vx > Vy`.
    fn ssub(&mut self, x: u8, y: u8)
        requires
            old(self).wf(),
            old(self)@.permits(Instruction::Ssub(x, y)),
        ensures
            final(self).wf(),
            final(self)@ == old(self)@.ssub(x, y),
    {
        let vx: u8 = self.register[x as usize];
        let vy: u8 = self.register[y as usize];
        self.register[0xF] = 0;
        if vx > vy {
            self.register[0xF] = 1;
        }
        self.register[x as usize] = vy.wrapping_sub(vx);
        self.program_counter += 2;
    }

    /// `BNNN`: jump to `V0 + nnn`.
    fn jumpi(&mut self, nnn: u16)
        requires
            old(self).wf(),
            old(self)@.permits(Instruction::Jumpi(nnn)),
        ensures
            final(self).wf(),
            final(self)@ == old(self)@.jumpi(nnn),
    {
        self.program_counter = self.register[0x0] as u16 + nnn;
    }

    /// `FX29`: `I` = the address of the glyph for `Vx`.
    fn ldspr(&mut self, x: u8)
        requires
            old(self).wf(),
            old(self)@.permits(Instruction::Ldspr(x)),
        ensures
            final(self).wf(),
            final(self)@ == old(self)@.ldspr(x),
    {
        self.index_register = self.register[x as usize] as u16 * FONTSET_BYTES_PER_CHAR;
        self.program_counter += 2;
    }

    /// `00EE`: return to the address on top of the call stack.
    fn ret(&mut self)
        requires
            old(self).wf(),
            old(self)@.permits(Instruction::Ret),
        ensures
            final(self).wf(),
            final(self)@ == old(self)@.ret(),
    {
        match self.stack.pop() {
            Some(ret_addr) => {
                self.program_counter = ret_addr;
            },
            None => {},
        }
    }

    /// `8XYE`: `VF` = the high bit of `Vx`, then `Vx <<= 1`.
    fn shl(&mut self, x: u8)
        requires
            old(self).wf(),
            old(self)@.permits(Instruction::Shl(x)),
        ensures
            final(self).wf(),
            final(self)@ == old(self)@.shl(x),
    {
        let before: u8 = self.register[x as usize];
        assert((before >> 7) & 0x1 == before / 0x80) by (bit_vector);
        self.register[0xF] = (before >> 7) & 0x1;
        let flagged: u8 = self.register[x as usize];
        assert(flagged << 1 == (flagged * 2) % 0x100) by (bit_vector);
        self.register[x as usize] = flagged << 1;
        self.program_counter += 2;
    }

    /// `8XY6`: `VF` = the low bit of `Vx`, then `Vx >>= 1`.
    fn shr(&mut self, x: u8)
        requires
            old(self).wf(),
            old(self)@.permits(Instruction::Shr(x)),
        ensures
            final(self).wf(),
            final(self)@ == old(self)@.shr(x),
    {
        let before: u8 = self.register[x as usize];
        assert(before & 0x1 == before % 2) by (bit_vector);
        self.register[0xF] = before & 0x1;
        let flagged: u8 = self.register[x as usize];
        assert(flagged >> 1 == flagged / 2) by (bit_vector);
        self.register[x as usize] = flagged >> 1;
        self.program_counter += 2;
    }

    /// `EX9E`: skip, and release every key, if key `Vx` is down.
    fn skpr(&mut self, x: u8)
        requires
            old(self).wf(),
            old(self)@.permits(Instruction::Skpr(x)),
        ensures
            final(self).wf(),
            final(self)@ == old(self)@.skpr(x),
    {
        if self.keys[self.register[x as usize] as usize] {
            self.reset_keys();
            self.program_counter += 4;
        } else {
            self.program_counter += 2;
        }
    }

    /// `EXA1`: skip, and release every key, if key `Vx` is not down.
    fn skup(&mut self, x: u8)
        requires
            old(self).wf(),
            old(self)@.permits(Instruction::Skup(x)),
        ensures
            final(self).wf(),
            final(self)@ == old(self)@.skup(x),
    {
        if self.keys[self.register[x as usize] as usize] {
            self.program_counter += 2;
        } else {
            self.reset_keys();
            self.program_counter += 4;
        }
    }

    /// `FX33`: the decimal digits of `Vx` at `I`, `I+1`, `I+2`.
    fn bcd(&mut self, x: u8)
        requires
            old(self).wf(),
            old(self)@.permits(Instruction::Bcd(x)),
        ensures
            final(self).wf(),
            final(self)@ == old(self)@.bcd(x),
    {
        let value: u8 = self.register[x as usize];
        let at: usize = self.index_register as usize;
        self.memory[at] = value / 100;
        self.memory[at + 1] = (value / 10) % 10;
        self.memory[at + 2] = value % 10;
        self.program_counter += 2;
    }

    /// `FX55`: `V0..=Vx` to memory at `I`.
    fn mstor(&mut self, x: u8)
        requires
            old(self).wf(),
            old(self)@.permits(Instruction::Mstor(x)),
        ensures
            final(self).wf(),
            final(self)@ == old(self)@.mstor(x),
    {
        let base: usize = self.index_register as usize;
        let mut offset: usize = 0;
        while offset <= x as usize
            invariant
                offset <= x + 1,
                x < 16,
                base == old(self)@.index,
                base + x < MEMORY_SIZE,
                self@ == (Machine { memory: self@.memory, ..old(self)@ }),
                forall|a: int|
                    base <= a < base + offset ==> self@.memory[a] == old(self)@.registers[a - base],
                forall|a: int|
                    0 <= a < MEMORY_SIZE && !(base <= a < base + offset)
                        ==> self@.memory[a] == old(self)@.memory[a],
            decreases x + 1 - offset,
        {
            self.memory[base + offset] = self.register[offset];
            offset += 1;
        }
        self.program_counter += 2;
    }

    /// `FX65`: `V0..=Vx` from memory at `I`.
    fn mread(&mut self, x: u8)
        requires
            old(self).wf(),
            old(self)@.permits(Instruction::Mread(x)),
        ensures
            final(self).wf(),
            final(self)@ == old(self)@.mread(x),
    {
        let base: usize = self.index_register as usize;
        let mut offset: usize = 0;
        while offset <= x as usize
            invariant
                offset <= x + 1,
                x < 16,
                base == old(self)@.index,
                base + x < MEMORY_SIZE,
                self@ == (Machine { registers: self@.registers, ..old(self)@ }),
                forall|i: int| 0 <= i < offset ==> self@.registers[i] == old(self)@.memory[base + i],
                forall|i: int| offset <= i < 16 ==> self@.registers[i] == old(self)@.registers[i],
            decreases x + 1 - offset,
        {
            self.register[offset] = self.memory[base + offset];
            offset += 1;
        }
        self.program_counter += 2;
    }

    /// The lowest-numbered key that is down.
    fn first_key(&self) -> (key: Option<u8>)
        ensures
            match key {
                Some(k) => first_pressed(self@.keys) == Some(k as int),
                None => first_pressed(self@.keys) is None,
            },
    {
        let mut i: u8 = 0;
        while i < 16
            invariant
                i <= 16,
                first_pressed(self@.keys) == first_pressed_from(self@.keys, i as int),
            decreases 16 - i,
        {
            if self.keys[i as usize] {
                return Some(i);
            }
            i += 1;
        }
        None
    }

    /// `FX0A`: with a key down, `Vx` = the lowest such key and the program
    /// goes on; with none, nothing changes.
    fn keyd(&mut self, x: u8)
        requires
            old(self).wf(),
            old(self)@.permits(Instruction::Keyd(x)),
        ensures
            final(self).wf(),
            final(self)@ == old(self)@.keyd(x),
    {
        match self.first_key() {
            Some(key) => {
                self.register[x as usize] = key;
                self.program_counter += 2;
            },
            None => {},
        }
    }

    /// `DXYN`: clears `VF`, XORs the `n`-byte sprite at `I` onto the screen
    /// at (`Vx`, `Vy`), sets `VF` on a collision and raises `draw_flag`.
    fn draw(&mut self, register_x: u8, register_y: u8, n: u8)
        requires
            old(self).wf(),
            old(self)@.permits(Instruction::Draw(register_x, register_y, n)),
        ensures
            final(self).wf(),
            final(self)@ == old(self)@.draw(register_x, register_y, n),
    {
        self.register[0xF] = 0;
        let pos_x: u8 = self.register[register_x as usize];
        let pos_y: u8 = self.register[register_y as usize];
        let collision = blit_sprite(
            &mut self.graphics,
            &self.memory,
            self.index_register as usize,
            n,
            pos_x,
            pos_y,
        );
        if collision {
            self.register[0xF] = 1;
        }
        self.draw_flag = true;
        self.program_counter += 2;
    }

    /// Counts both timers down. Returns whether the sound timer reached zero.
    fn tick(&mut self) -> (tone: bool)
        ensures
            final(self)@ == old(self)@.ticked(),
            tone == old(self)@.tone_due(),
    {
        if self.delay_timer > 0 {
            self.delay_timer -= 1;
        }
        let mut tone = false;
        if self.sound_timer > 0 {
            self.sound_timer -= 1;
            if self.sound_timer == 0 {
                tone = true;
            }
        }
        tone
    }

    /// The fault that `instruction` would meet in what it reads or writes.
    fn access_fault(&self, instruction: Instruction) -> (fault: Option<Fault>)
        requires
            self.wf(),
            instruction.wf(),
        ensures
            fault == self@.access_fault(instruction),
    {
        let index: usize = self.index_register as usize;
        let in_bounds: bool = match instruction {
            Instruction::Ret => {
                if self.stack.len() == 0 {
                    return Some(Fault::StackUnderflow);
                }
                true
            },
            Instruction::Skpr(x) => self.register[x as usize] < 16,
            Instruction::Skup(x) => self.register[x as usize] < 16,
            Instruction::Draw(_, _, n) => index + n as usize <= 4096,
            Instruction::Bcd(_) => index + 3 <= 4096,
            Instruction::Mstor(x) => index + x as usize + 1 <= 4096,
            Instruction::Mread(x) => index + x as usize + 1 <= 4096,
            _ => true,
        };
        if in_bounds {
            None
        } else {
            Some(Fault::OutOfBounds)
        }
    }

    /// Where the program counter would stand after `instruction`.
    fn next_pc(&self, instruction: Instruction) -> (pc: u16)
        requires
            self.wf(),
            instruction.wf(),
            self@.access_fault(instruction) is None,
        ensures
            pc == self@.next_pc(instruction),
    {
        let pc: u16 = self.program_counter;
        let skip: bool = match instruction {
            Instruction::Ret => {
                return self.stack[self.stack.len() - 1];
            },
            Instruction::Jump(nnn) => {
                return nnn;
            },
            Instruction::Call(nnn) => {
                return nnn;
            },
            Instruction::Jumpi(nnn) => {
                return self.register[0] as u16 + nnn;
            },
            Instruction::Keyd(_) => {
                return if self.first_key().is_some() {
                    pc + 2
                } else {
                    pc
                };
            },
            Instruction::Ske(x, kk) => self.register[x as usize] == kk,
            Instruction::Skne(x, kk) => self.register[x as usize] != kk,
            Instruction::Skre(x, y) => self.register[x as usize] == self.register[y as usize],
            Instruction::Skrne(x, y) => self.register[x as usize] != self.register[y as usize],
            Instruction::Skpr(x) => self.keys[self.register[x as usize] as usize],
            Instruction::Skup(x) => !self.keys[self.register[x as usize] as usize],
            _ => false,
        };
        if skip {
            pc + 4
        } else {
            pc + 2
        }
    }

    /// The fault that stops `instruction`, if any.
    fn fault_of(&self, instruction: Instruction) -> (fault: Option<Fault>)
        requires
            self.wf(),
            instruction.wf(),
        ensures
            fault == self@.fault_of(instruction),
    {
        match self.access_fault(instruction) {
            Some(fault) => Some(fault),
            None => if self.next_pc(instruction) >= 4096 {
                Some(Fault::OutOfBounds)
            } else {
                None
            },
        }
    }

    /// Carries out `instruction`. `random` is used by `Rand` alone.
    fn execute(&mut self, instruction: Instruction, random: u8)
        requires
            old(self).wf(),
            old(self)@.permits(instruction),
        ensures
            final(self).wf(),
            final(self)@ == old(self)@.effect(instruction, random),
    {
        match instruction {
            Instruction::Clr => self.clr(),
            Instruction::Ret => self.ret(),
            Instruction::Jump(nnn) => self.jump(nnn),
            Instruction::Call(nnn) => self.call(nnn),
            Instruction::Ske(x, kk) => self.ske(x, kk),
            Instruction::Skne(x, kk) => self.skne(x, kk),
            Instruction::Skre(x, y) => self.skre(x, y),
            Instruction::Load(x, kk) => self.load(x, kk),
            Instruction::Add(x, kk) => self.add(x, kk),
            Instruction::Mov(x, y) => self.mov(x, y),
            Instruction::Or(x, y) => self.or(x, y),
            Instruction::And(x, y) => self.and(x, y),
            Instruction::Xor(x, y) => self.xor(x, y),
            Instruction::Addr(x, y) => self.addr(x, y),
            Instruction::Sub(x, y) => self.sub(x, y),
            Instruction::Shr(x) => self.shr(x),
            Instruction::Ssub(x, y) => self.ssub(x, y),
            Instruction::Shl(x) => self.shl(x),
            Instruction::Skrne(x, y) => self.skrne(x, y),
            Instruction::Loadi(nnn) => self.loadi(nnn),
            Instruction::Jumpi(nnn) => self.jumpi(nnn),
            Instruction::Rand(x, kk) => self.rand(x, kk, random),
            Instruction::Draw(x, y, n) => self.draw(x, y, n),
            Instruction::Skpr(x) => self.skpr(x),
            Instruction::Skup(x) => self.skup(x),
            Instruction::Moved(x) => self.moved(x),
            Instruction::Keyd(x) => self.keyd(x),
            Instruction::Loadd(x) => self.loadd(x),
            Instruction::Loads(x) => self.loads(x),
            Instruction::Addi(x) => self.addi(x),
            Instruction::Ldspr(x) => self.ldspr(x),
            Instruction::Bcd(x) => self.bcd(x),
            Instruction::Mstor(x) => self.mstor(x),
            Instruction::Mread(x) => self.mread(x),
        }
    }

    /// Executes one instruction, with `random` as the byte that `Rand`
    /// uses. A halted machine stays as it is. Returns whether the sound
    /// timer reached zero on this step, or the fault that stopped it; after
    /// a fault the machine is unchanged.
    pub fn step_with(&mut self, random: u8) -> (res: Result<bool, Fault>)
        requires
            old(self).wf(),
        ensures
            final(self).wf(),
            old(self)@.step_yields(random, final(self)@, res),
    {
        if self.done {
            return Ok(false);
        }
        if self.program_counter as usize + 1 >= 4096 {
            return Err(Fault::OutOfBounds);
        }
        let opcode = self.fetch_opcode();
        let instruction = match decode(opcode) {
            Some(instruction) => instruction,
            None => {
                return Err(Fault::UnknownInstruction(opcode.opcode));
            },
        };
        match self.fault_of(instruction) {
            Some(fault) => {
                return Err(fault);
            },
            None => {},
        }
        let tone = self.tick();
        self.execute(instruction, random);
        Ok(tone)
    }

    /// Whether the step about to be taken uses a random byte.
    fn wants_random(&self) -> (wanted: bool)
        requires
            self.wf(),
        ensures
            wanted == self@.wants_random(),
    {
        !self.done && self.program_counter as usize + 1 < 4096
            && self.memory[self.program_counter as usize] / 0x10 == 0xC
    }

    /// Executes one instruction, drawing a random byte where the
    /// instruction is `Rand`. See [`Cpu::step_with`].
    pub fn step(&mut self) -> (res: Result<bool, Fault>)
        requires
            old(self).wf(),
        ensures
            final(self).wf(),
            exists|random: u8| old(self)@.step_yields(random, final(self)@, res),
            !old(self)@.wants_random() ==> forall|random: u8|
                old(self)@.step_yields(random, final(self)@, res),
    {
        let random: u8 = if self.wants_random() {
            random_byte()
        } else {
            0
        };
        let res = self.step_with(random);
        proof {
            if !old(self)@.wants_random() {
                assert forall|other: u8| old(self)@.step_yields(other, self@, res) by {
                    old(self)@.lemma_random_unused(random, other);
                }
            }
        }
        res
    }

    /// Executes `steps` instructions, one after the other, and stops at the
    /// first fault. Returns the number of tones, or that fault.
    pub fn steps(&mut self, steps: u8) -> (res: Result<u8, Fault>)
        requires
            old(self).wf(),
        ensures
            final(self).wf(),
            exists|randoms: Seq<u8>|
                randoms.len() <= steps && (res is Ok ==> randoms.len() == steps)
                    && #[trigger] old(self)@.run(randoms) == (
                    final(self)@,
                    match res {
                        Ok(tones) => Ok::<nat, Fault>(tones as nat),
                        Err(fault) => Err::<nat, Fault>(fault),
                    },
                ),
    {
        let mut tones: u8 = 0;
        let mut i: u8 = 0;
        let ghost mut used: Seq<u8> = Seq::empty();
        while i < steps
            invariant
                i <= steps,
                tones <= i,
                self.wf(),
                used.len() == i,
                old(self)@.run(used) == (self@, Ok::<nat, Fault>(tones as nat)),
            decreases steps - i,
        {
            let ghost before = self@;
            let res = self.step();
            proof {
                let random = choose|random: u8| before.step_yields(random, self@, res);
                assert(used.push(random).drop_last() =~= used);
                used = used.push(random);
            }
            match res {
                Ok(tone) => {
                    if tone {
                        tones += 1;
                    }
                },
                Err(fault) => {
                    assert(old(self)@.run(used) == (self@, Err::<nat, Fault>(fault)));
                    return Err(fault);
                },
            }
            i += 1;
        }
        Ok(tones)
    }
}

/// The colour of a pixel that is on.
pub const PIXEL_ON: u32 = 0x004e6563;

/// The colour of a pixel that is off.
pub const PIXEL_OFF: u32 = 0x00a0a293;

/// The colour of a pixel.
pub open spec fn colour(on: bool) -> u32 {
    if on {
        PIXEL_ON
    } else {
        PIXEL_OFF
    }
}

/// Writes the screen into `buffer` as one colour per pixel, row after row.
/// What the buffer holds beyond the screen's pixels stays.
pub fn convert_graphics(cpu: &mut Cpu, buffer: &mut Vec<u32>)
    requires
        old(buffer)@.len() >= GRAPHICS_WIDTH * GRAPHICS_HEIGHT,
    ensures
        *final(cpu) == *old(cpu),
        final(buffer)@.len() == old(buffer)@.len(),
        forall|px: int, py: int|
            0 <= px < GRAPHICS_WIDTH && 0 <= py < GRAPHICS_HEIGHT
                ==> #[trigger] final(buffer)@[py * GRAPHICS_WIDTH + px] == colour(
                old(cpu)@.graphics[py][px],
            ),
        forall|i: int|
            GRAPHICS_WIDTH * GRAPHICS_HEIGHT <= i < old(buffer)@.len()
                ==> final(buffer)@[i] == old(buffer)@[i],
{
    let mut y: usize = 0;
    while y < 32
        invariant
            y <= 32,
            *cpu == *old(cpu),
            buffer@.len() == old(buffer)@.len() >= 2048,
            forall|px: int, py: int|
                0 <= px < 64 && 0 <= py < y ==> #[trigger] buffer@[py * 64 + px] == colour(
                    cpu@.graphics[py][px],
                ),
            forall|i: int| 2048 <= i < buffer@.len() ==> buffer@[i] == old(buffer)@[i],
        decreases 32 - y,
    {
        let mut x: usize = 0;
        while x < 64
            invariant
                x <= 64,
                y < 32,
                *cpu == *old(cpu),
                buffer@.len() == old(buffer)@.len() >= 2048,
                forall|px: int, py: int|
                    0 <= px < 64 && 0 <= py < y ==> #[trigger] buffer@[py * 64 + px] == colour(
                        cpu@.graphics[py][px],
                    ),
                forall|px: int|
                    0 <= px < x ==> #[trigger] buffer@[y * 64 + px] == colour(
                        cpu@.graphics[y as int][px],
                    ),
                forall|i: int| 2048 <= i < buffer@.len() ==> buffer@[i] == old(buffer)@[i],
            decreases 64 - x,
        {
            buffer[y * 64 + x] = if cpu.graphics[y][x] {
                PIXEL_ON
            } else {
                PIXEL_OFF
            };
            x += 1;
        }
        y += 1;
    }
}

} // verus!
