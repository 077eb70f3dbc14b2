//! A CHIP-8 virtual machine core: memory, registers, call stack, timers,
//! keypad and framebuffer, and the instruction set that drives them.
//!
//! The machine is [`cpu::Cpu`]. The host loads a program with
//! [`cpu::Cpu::load_program`], supplies the key states with
//! [`cpu::Cpu::set_keys`], runs instructions with [`cpu::Cpu::step`] or
//! [`cpu::Cpu::steps`], and shows `graphics` whenever `draw_flag` is up.
//! A step returns a [`fault::Fault`] instead of executing an instruction
//! that is undefined or would leave the machine's bounds.
//!
//! Every function is specified against [`machine::Machine`], the
//! mathematical model of the machine state, and [`laws`] states what holds
//! of every state and every program.
//!
//! - [`opcode`]: the fields of an instruction word, and its mnemonic.
//! - [`instruction`]: the instruction set and the decoder.
//! - [`machine`]: the model: what each instruction, a step and a batch do.
//! - [`screen`]: the framebuffer and sprite compositing.
//! - [`cpu`]: the executable machine.
//! - [`fault`]: the fatal conditions.
//! - [`pacing`]: the host's speed setting.
//! - [`text`]: numbers as text.
//! - [`laws`]: theorems about the model.

pub mod cpu;
pub mod fault;
pub mod instruction;
pub mod laws;
pub mod machine;
pub mod opcode;
pub mod pacing;
mod random;
pub mod screen;
pub mod text;
