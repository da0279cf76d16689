//! The fetch-decode-execute engine.
//!
//! A step fetches the word at the program counter, moves the program
//! counter past it, decodes the word and runs its handler. A cycle is a step
//! followed by a tick of the timers. A host that keeps the timers at 60 Hz
//! while it executes instructions at another rate calls `step` and
//! `tick_timers` on two schedules instead.

use vstd::prelude::*;
use crate::chip8::Chip8;
use crate::error::Chip8Error;
use crate::instruction::{decode, lemma_fields_are_digits, make_word, Instruction, Opcode};
use crate::model::{MEMORY_SIZE, STACK_SIZE, START_ADDRESS};
use crate::random::random_byte;

verus! {

impl Chip8 {
    /// The instruction word at the program counter.
    pub fn next_word(&self) -> (word: u16)
        requires
            self.pc + 1 < 4096,
        ensures
            word == self@.next_word(),
    {
        make_word(self.memory[self.pc as usize], self.memory[self.pc as usize + 1])
    }

    /// Whether the machine can execute its next instruction: the stack
    /// pointer is at most 16, the instruction lies in program memory,
    /// `0x200..=0xFFF`, with both its bytes, and it touches only memory
    /// cells and keys that exist.
    pub fn can_step(&self) -> (ok: bool)
        ensures
            ok == self@.can_step(),
    {
        if self.sp as usize > STACK_SIZE || self.pc < START_ADDRESS
            || self.pc as usize + 1 >= MEMORY_SIZE {
            return false;
        }
        let ins: Instruction = decode(self.next_word());
        let index: usize = self.index as usize;
        proof {
            lemma_fields_are_digits(self@.next_word());
        }
        match ins.op {
            Opcode::Drw => index + ins.n as usize <= MEMORY_SIZE,
            Opcode::Skp | Opcode::Sknp => self.registers[ins.x] < 16,
            Opcode::LdB => index + 2 < MEMORY_SIZE,
            Opcode::LdMemVx | Opcode::LdVxMem => index + ins.x < MEMORY_SIZE,
            _ => true,
        }
    }

    /// Decodes the word in `opcode` and runs its handler, with `random` as
    /// the byte that `RND` draws.
    ///
    /// Returns whether the instruction was `CLS` or `DRW`, the two that
    /// write to the display. On a stack overflow or underflow it returns
    /// the error and changes nothing.
    pub fn execute(&mut self, random: u8) -> (res: Result<bool, Chip8Error>)
        requires
            old(self)@.wf(),
            old(self)@.in_bounds(),
        ensures
            old(self)@.execute_leaves(random, res, final(self)@),
    {
        let ins: Instruction = decode(self.opcode);
        match ins.op {
            Opcode::Cls => {
                self.op_00e0();
                Ok(true)
            },
            Opcode::Ret => match self.op_00ee() {
                Ok(()) => Ok(false),
                Err(e) => Err(e),
            },
            Opcode::Jp => {
                self.op_1nnn();
                Ok(false)
            },
            Opcode::Call => match self.op_2nnn() {
                Ok(()) => Ok(false),
                Err(e) => Err(e),
            },
            Opcode::SeByte => {
                self.op_3xkk();
                Ok(false)
            },
            Opcode::SneByte => {
                self.op_4xkk();
                Ok(false)
            },
            Opcode::SeReg => {
                self.op_5xy0();
                Ok(false)
            },
            Opcode::LdByte => {
                self.op_6xkk();
                Ok(false)
            },
            Opcode::AddByte => {
                self.op_7xkk();
                Ok(false)
            },
            Opcode::LdReg => {
                self.op_8xy0();
                Ok(false)
            },
            Opcode::Or => {
                self.op_8xy1();
                Ok(false)
            },
            Opcode::And => {
                self.op_8xy2();
                Ok(false)
            },
            Opcode::Xor => {
                self.op_8xy3();
                Ok(false)
            },
            Opcode::AddReg => {
                self.op_8xy4();
                Ok(false)
            },
            Opcode::Sub => {
                self.op_8xy5();
                Ok(false)
            },
            Opcode::Shr => {
                self.op_8xy6();
                Ok(false)
            },
            Opcode::Subn => {
                self.op_8xy7();
                Ok(false)
            },
            Opcode::Shl => {
                self.op_8xye();
                Ok(false)
            },
            Opcode::SneReg => {
                self.op_9xy0();
                Ok(false)
            },
            Opcode::LdI => {
                self.op_annn();
                Ok(false)
            },
            Opcode::JpV0 => {
                self.op_bnnnn();
                Ok(false)
            },
            Opcode::Rnd => {
                self.op_cxkk_with(random);
                Ok(false)
            },
            Opcode::Drw => {
                self.op_dxyn();
                Ok(true)
            },
            Opcode::Skp => {
                self.op_ex9e();
                Ok(false)
            },
            Opcode::Sknp => {
                self.op_exa1();
                Ok(false)
            },
            Opcode::LdVxDt => {
                self.op_fx07();
                Ok(false)
            },
            Opcode::LdVxK => {
                self.op_fx0a();
                Ok(false)
            },
            Opcode::LdDtVx => {
                self.op_fx15();
                Ok(false)
            },
            Opcode::LdStVx => {
                self.op_fx18();
                Ok(false)
            },
            Opcode::AddI => {
                self.op_fx1e();
                Ok(false)
            },
            Opcode::LdF => {
                self.op_fx29();
                Ok(false)
            },
            Opcode::LdB => {
                self.op_fx33();
                Ok(false)
            },
            Opcode::LdMemVx => {
                self.op_fx55();
                Ok(false)
            },
            Opcode::LdVxMem => {
                self.op_fx65();
                Ok(false)
            },
            Opcode::Nop => {
                self.op_null();
                Ok(false)
            },
        }
    }

    /// One step with `random` as the byte that `RND` draws: fetches the
    /// word at the program counter, moves the program counter past it, and
    /// executes the word.
    ///
    /// Returns whether the instruction was `CLS` or `DRW`. On a stack
    /// overflow or underflow it returns the error and leaves the machine as
    /// it was before the fetch.
    pub fn step_with(&mut self, random: u8) -> (res: Result<bool, Chip8Error>)
        requires
            old(self)@.can_step(),
        ensures
            old(self)@.step_leaves(random, res, final(self)@),
    {
        let pc: u16 = self.pc;
        let opcode: u16 = self.opcode;
        self.opcode = self.next_word();
        self.pc = pc.wrapping_add(2);
        match self.execute(random) {
            Ok(redraw) => Ok(redraw),
            Err(e) => {
                self.pc = pc;
                self.opcode = opcode;
                Err(e)
            },
        }
    }

    /// One step: as `step_with`, with a byte from the thread's random
    /// generator where the instruction is `RND`.
    ///
    /// Of a `RND` all that is known is that the outcome is the one for some
    /// byte. Every other instruction does not read the byte, and its outcome
    /// is the one for the byte 0.
    pub fn step(&mut self) -> (res: Result<bool, Chip8Error>)
        requires
            old(self)@.can_step(),
        ensures
            exists|random: u8| #[trigger] old(self)@.step_leaves(random, res, final(self)@),
            !old(self)@.draws_random() ==> old(self)@.step_leaves(0, res, final(self)@),
    {
        let random: u8 = if decode(self.next_word()).op == Opcode::Rnd {
            random_byte()
        } else {
            0
        };
        self.step_with(random)
    }

    /// One cycle: a step, then a tick of the timers.
    ///
    /// Returns what the step returns. On an error the timers do not tick:
    /// the machine is left as it was.
    pub fn cycle(&mut self) -> (res: Result<bool, Chip8Error>)
        requires
            old(self)@.can_step(),
        ensures
            exists|random: u8| #[trigger] old(self)@.cycle_leaves(random, res, final(self)@),
            !old(self)@.draws_random() ==> old(self)@.cycle_leaves(0, res, final(self)@),
    {
        let res = self.step();
        let ghost stepped = self@;
        if res.is_ok() {
            self.tick_timers();
        }
        proof {
            let random = choose|random: u8| old(self)@.step_leaves(random, res, stepped);
            assert(old(self)@.cycle_leaves(random, res, self@));
        }
        res
    }

    /// One cycle, if the machine can execute its next instruction: as
    /// `cycle`, after the test that `can_step` makes. Where the test fails,
    /// it returns `None` and leaves the machine as it was.
    pub fn checked_cycle(&mut self) -> (res: Option<Result<bool, Chip8Error>>)
        ensures
            res is Some <==> old(self)@.can_step(),
            res is None ==> final(self)@ == old(self)@,
            res matches Some(outcome) ==> exists|random: u8| #[trigger]
                old(self)@.cycle_leaves(random, outcome, final(self)@),
            res matches Some(outcome) ==> !old(self)@.draws_random()
                ==> old(self)@.cycle_leaves(0, outcome, final(self)@),
    {
        if self.can_step() {
            Some(self.cycle())
        } else {
            None
        }
    }
}

} // verus!
