//! A CHIP-8 interpreter core: the machine state, the instruction decoder and
//! the fetch-decode-execute engine, with every operation specified against a
//! mathematical model of the machine and proved by Verus.
//!
//! The host drives the machine: it loads the font and a program, refreshes
//! [`Chip8::keypad`] from its input device, calls [`Chip8::cycle`] (or
//! [`Chip8::step`] and [`Chip8::tick_timers`] on separate schedules) and
//! presents [`Chip8::video`].
//!
//! A program can send the machine where it cannot go on: to an instruction
//! outside program memory, or to one that reaches beyond memory or the
//! keypad. [`Chip8::cycle`] requires that this is not so;
//! [`Chip8::can_step`] tests it, and [`Chip8::checked_cycle`] makes the test
//! before it runs the cycle.

pub mod chip8;
pub mod display;
pub mod engine;
pub mod error;
pub mod font;
pub mod input;
pub mod instruction;
pub mod laws;
pub mod model;
mod random;

pub use chip8::Chip8;
pub use error::Chip8Error;
pub use instruction::{decode, Instruction, Opcode};
pub use model::Machine;
