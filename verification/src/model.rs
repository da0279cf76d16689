//! The mathematical model of the machine.
//!
//! [`Machine`] is the view of [`crate::Chip8`]: the same state, held in
//! sequences. Every instruction is a function from machines to machines,
//! and the contracts of the executable handlers are stated by these
//! functions.

use vstd::prelude::*;
use crate::display::{blank, blit, collides};
use crate::error::Chip8Error;
use crate::font::FONTSET;
use crate::input::{any_held, lowest_held};
use crate::instruction::{kk_of, n_of, nnn_of, opcode_of, word_of, x_of, y_of, Opcode};

verus! {

/// Where programs are loaded and where execution starts.
pub const START_ADDRESS: u16 = 0x200;

/// Bytes of memory.
pub const MEMORY_SIZE: usize = 4096;

/// Slots of the call stack.
pub const STACK_SIZE: usize = 16;

/// The longest program image: it fills memory from `0x200` to `0xFFF`.
pub const MAX_ROM_SIZE: usize = 3584;

/// The state of a CHIP-8 machine.
#[verifier::ext_equal]
pub struct Machine {
    /// The registers `V0` to `VF`.
    pub registers: Seq<u8>,
    /// The 4096 bytes of memory.
    pub memory: Seq<u8>,
    /// The address register `I`.
    pub index: u16,
    /// The address of the next instruction.
    pub pc: u16,
    /// The return addresses of the subroutines being executed.
    pub stack: Seq<u16>,
    /// The number of return addresses on the stack.
    pub sp: u8,
    /// The delay timer.
    pub delay_timer: u8,
    /// The sound timer.
    pub sound_timer: u8,
    /// For each of the sixteen keys, whether it is held.
    pub keypad: Seq<bool>,
    /// The 64×32 pixels of the display, row by row.
    pub video: Seq<bool>,
    /// The instruction word being executed.
    pub opcode: u16,
}

impl Machine {
    /// The machine has sixteen registers, 4096 bytes of memory, sixteen
    /// stack slots, sixteen keys and 2048 pixels, and its stack pointer does
    /// not exceed the number of slots.
    pub open spec fn wf(self) -> bool {
        &&& self.registers.len() == 16
        &&& self.memory.len() == 4096
        &&& self.stack.len() == 16
        &&& self.keypad.len() == 16
        &&& self.video.len() == 2048
        &&& self.sp <= 16
    }

    /// The machine as it is created: everything zero, the display blank,
    /// execution about to start at `0x200`.
    pub open spec fn initial() -> Machine {
        Machine {
            registers: Seq::new(16, |i: int| 0u8),
            memory: Seq::new(4096, |i: int| 0u8),
            index: 0,
            pc: 0x200,
            stack: Seq::new(16, |i: int| 0u16),
            sp: 0,
            delay_timer: 0,
            sound_timer: 0,
            keypad: Seq::new(16, |i: int| false),
            video: blank(),
            opcode: 0,
        }
    }

    /// The machine with the font written to `0x050..0x0A0`.
    pub open spec fn with_font(self) -> Machine {
        Machine {
            memory: Seq::new(
                4096,
                |a: int|
                    if 0x50 <= a < 0xA0 {
                        FONTSET@[a - 0x50]
                    } else {
                        self.memory[a]
                    },
            ),
            ..self
        }
    }

    /// The machine with a program image written from `0x200` on.
    pub open spec fn with_rom(self, rom: Seq<u8>) -> Machine {
        Machine {
            memory: Seq::new(
                4096,
                |a: int|
                    if 0x200 <= a < 0x200 + rom.len() {
                        rom[a - 0x200]
                    } else {
                        self.memory[a]
                    },
            ),
            ..self
        }
    }

    /// The register number `x` of the instruction in `opcode`.
    pub open spec fn x(self) -> int {
        x_of(self.opcode) as int
    }

    /// The register number `y` of the instruction in `opcode`.
    pub open spec fn y(self) -> int {
        y_of(self.opcode) as int
    }

    /// The count `n` of the instruction in `opcode`.
    pub open spec fn n(self) -> int {
        n_of(self.opcode) as int
    }

    /// The constant `kk` of the instruction in `opcode`.
    pub open spec fn kk(self) -> u8 {
        kk_of(self.opcode) as u8
    }

    /// The address `nnn` of the instruction in `opcode`.
    pub open spec fn nnn(self) -> u16 {
        nnn_of(self.opcode)
    }

    /// The value of register `Vx`.
    pub open spec fn reg(self, x: int) -> u8 {
        self.registers[x]
    }

    /// The machine with `value` in register `Vx`.
    pub open spec fn set_reg(self, x: int, value: u8) -> Machine {
        Machine { registers: self.registers.update(x, value), ..self }
    }

    /// The machine with `flag` (as 1 or 0) in register `VF`.
    pub open spec fn set_flag(self, flag: bool) -> Machine {
        self.set_reg(
            0xF,
            if flag {
                1u8
            } else {
                0u8
            },
        )
    }

    /// The machine with the program counter moved on by one instruction.
    pub open spec fn skip(self) -> Machine {
        Machine { pc: ((self.pc + 2) % 0x10000) as u16, ..self }
    }

    /// The machine with the next instruction skipped if `condition` holds.
    pub open spec fn skip_if(self, condition: bool) -> Machine {
        if condition {
            self.skip()
        } else {
            self
        }
    }

    /// `CLS`: the display is blank.
    pub open spec fn cls(self) -> Machine {
        Machine { video: blank(), ..self }
    }

    /// `RET`: the top of the stack is popped into the program counter. An
    /// empty stack is an underflow.
    pub open spec fn ret(self) -> Result<Machine, Chip8Error> {
        if self.sp == 0 {
            Err(Chip8Error::StackUnderflow)
        } else {
            Ok(Machine { sp: (self.sp - 1) as u8, pc: self.stack[self.sp - 1], ..self })
        }
    }

    /// `JP nnn`: execution goes on at `nnn`.
    pub open spec fn jp(self, nnn: u16) -> Machine {
        Machine { pc: nnn, ..self }
    }

    /// `CALL nnn`: the program counter is pushed, and execution goes on at
    /// `nnn`. A full stack is an overflow.
    pub open spec fn call(self, nnn: u16) -> Result<Machine, Chip8Error> {
        if self.sp >= 16 {
            Err(Chip8Error::StackOverflow)
        } else {
            Ok(
                Machine {
                    stack: self.stack.update(self.sp as int, self.pc),
                    sp: (self.sp + 1) as u8,
                    pc: nnn,
                    ..self
                },
            )
        }
    }

    /// `SE Vx, kk`.
    pub open spec fn se_byte(self, x: int, kk: u8) -> Machine {
        self.skip_if(self.reg(x) == kk)
    }

    /// `SNE Vx, kk`.
    pub open spec fn sne_byte(self, x: int, kk: u8) -> Machine {
        self.skip_if(self.reg(x) != kk)
    }

    /// `SE Vx, Vy`.
    pub open spec fn se_reg(self, x: int, y: int) -> Machine {
        self.skip_if(self.reg(x) == self.reg(y))
    }

    /// `SNE Vx, Vy`.
    pub open spec fn sne_reg(self, x: int, y: int) -> Machine {
        self.skip_if(self.reg(x) != self.reg(y))
    }

    /// `LD Vx, kk`.
    pub open spec fn ld_byte(self, x: int, kk: u8) -> Machine {
        self.set_reg(x, kk)
    }

    /// `ADD Vx, kk`: the sum modulo 256; `VF` is not touched.
    pub open spec fn add_byte(self, x: int, kk: u8) -> Machine {
        self.set_reg(x, ((self.reg(x) + kk) % 256) as u8)
    }

    /// `LD Vx, Vy`.
    pub open spec fn ld_reg(self, x: int, y: int) -> Machine {
        self.set_reg(x, self.reg(y))
    }

    /// `OR Vx, Vy`.
    pub open spec fn or_reg(self, x: int, y: int) -> Machine {
        self.set_reg(x, self.reg(x) | self.reg(y))
    }

    /// `AND Vx, Vy`.
    pub open spec fn and_reg(self, x: int, y: int) -> Machine {
        self.set_reg(x, self.reg(x) & self.reg(y))
    }

    /// `XOR Vx, Vy`.
    pub open spec fn xor_reg(self, x: int, y: int) -> Machine {
        self.set_reg(x, self.reg(x) ^ self.reg(y))
    }

    /// `ADD Vx, Vy`: `Vx` gets the sum modulo 256, then `VF` gets the
    /// carry, 1 if the sum exceeds 255.
    pub open spec fn add_reg(self, x: int, y: int) -> Machine {
        let sum = self.reg(x) + self.reg(y);
        self.set_reg(x, (sum % 256) as u8).set_flag(sum > 255)
    }

    /// `SUB Vx, Vy`: `VF` gets 1 if `Vx > Vy`, then `Vx` gets `Vx - Vy`
    /// modulo 256. Both are computed from the registers as they were.
    pub open spec fn sub_reg(self, x: int, y: int) -> Machine {
        let a = self.reg(x);
        let b = self.reg(y);
        self.set_flag(a > b).set_reg(x, ((a - b) % 256) as u8)
    }

    /// `SHR Vx`: `VF` gets the lowest bit of `Vx`, then `Vx` gets its
    /// former value shifted right by one.
    pub open spec fn shr(self, x: int) -> Machine {
        let a = self.reg(x);
        self.set_reg(0xF, a & 1).set_reg(x, a >> 1u8)
    }

    /// `SUBN Vx, Vy`: `VF` gets 1 if `Vy > Vx`, then `Vx` gets `Vy - Vx`
    /// modulo 256. Both are computed from the registers as they were.
    pub open spec fn subn_reg(self, x: int, y: int) -> Machine {
        let a = self.reg(x);
        let b = self.reg(y);
        self.set_flag(b > a).set_reg(x, ((b - a) % 256) as u8)
    }

    /// `SHL Vx`: `VF` gets the highest bit of `Vx`, then `Vx` gets its
    /// former value shifted left by one, modulo 256.
    pub open spec fn shl(self, x: int) -> Machine {
        let a = self.reg(x);
        self.set_reg(0xF, (a & 0x80) >> 7u8).set_reg(x, a << 1u8)
    }

    /// `LD I, nnn`.
    pub open spec fn ld_i(self, nnn: u16) -> Machine {
        Machine { index: nnn, ..self }
    }

    /// `JP V0, nnn`: execution goes on at `V0 + nnn`.
    pub open spec fn jp_v0(self, nnn: u16) -> Machine {
        Machine { pc: ((self.reg(0) + nnn) % 0x10000) as u16, ..self }
    }

    /// `RND Vx, kk`, for the random byte `random`.
    pub open spec fn rnd(self, x: int, kk: u8, random: u8) -> Machine {
        self.set_reg(x, random & kk)
    }

    /// The display column that `Vx` names: `Vx mod 64`.
    pub open spec fn column(self, x: int) -> int {
        self.reg(x) as int % 64
    }

    /// The display row that `Vy` names: `Vy mod 32`.
    pub open spec fn row(self, y: int) -> int {
        self.reg(y) as int % 32
    }

    /// The `n` bytes of memory at `I`: the sprite that `DRW` draws.
    pub open spec fn sprite(self, n: int) -> Seq<u8> {
        self.memory.subrange(self.index as int, self.index + n)
    }

    /// `DRW Vx, Vy, n`: the sprite at `I` is drawn at column `Vx mod 64` and
    /// row `Vy mod 32`, and `VF` gets 1 if a pixel was turned off, else 0.
    pub open spec fn drw(self, x: int, y: int, n: int) -> Machine {
        let x0 = self.column(x);
        let y0 = self.row(y);
        Machine { video: blit(self.video, self.sprite(n), x0, y0), ..self }.set_flag(
            collides(self.video, self.sprite(n), x0, y0),
        )
    }

    /// `SKP Vx`.
    pub open spec fn skp(self, x: int) -> Machine {
        self.skip_if(self.keypad[self.reg(x) as int])
    }

    /// `SKNP Vx`.
    pub open spec fn sknp(self, x: int) -> Machine {
        self.skip_if(!self.keypad[self.reg(x) as int])
    }

    /// `LD Vx, DT`.
    pub open spec fn ld_vx_dt(self, x: int) -> Machine {
        self.set_reg(x, self.delay_timer)
    }

    /// `LD Vx, K`: with a key held, `Vx` gets the number of the lowest one;
    /// with none, the program counter goes back by one instruction, so that
    /// this one is executed again.
    pub open spec fn wait_key(self, x: int) -> Machine {
        if any_held(self.keypad) {
            self.set_reg(x, lowest_held(self.keypad) as u8)
        } else {
            Machine { pc: ((self.pc - 2) % 0x10000) as u16, ..self }
        }
    }

    /// `LD DT, Vx`.
    pub open spec fn ld_dt_vx(self, x: int) -> Machine {
        Machine { delay_timer: self.reg(x), ..self }
    }

    /// `LD ST, Vx`.
    pub open spec fn ld_st_vx(self, x: int) -> Machine {
        Machine { sound_timer: self.reg(x), ..self }
    }

    /// `ADD I, Vx`: the sum modulo 65536.
    pub open spec fn add_i(self, x: int) -> Machine {
        Machine { index: ((self.index + self.reg(x)) % 0x10000) as u16, ..self }
    }

    /// `LD F, Vx`: `I` gets the address of the glyph for the low four bits
    /// of `Vx`.
    pub open spec fn ld_f(self, x: int) -> Machine {
        Machine { index: (0x50 + 5 * (self.reg(x) & 0xF)) as u16, ..self }
    }

    /// `LD B, Vx`: the hundreds, tens and ones of `Vx` are stored at `I`,
    /// `I + 1` and `I + 2`.
    pub open spec fn ld_b(self, x: int) -> Machine {
        let value = self.reg(x);
        Machine {
            memory: self.memory.update(self.index as int, value / 100).update(
                self.index + 1,
                (value / 10) % 10,
            ).update(self.index + 2, value % 10),
            ..self
        }
    }

    /// `LD [I], Vx`: the registers `V0` to `Vx`, `Vx` included, are stored
    /// from `I` on.
    pub open spec fn store_regs(self, x: int) -> Machine {
        Machine {
            memory: Seq::new(
                4096,
                |a: int|
                    if self.index <= a <= self.index + x {
                        self.registers[a - self.index]
                    } else {
                        self.memory[a]
                    },
            ),
            ..self
        }
    }

    /// `LD Vx, [I]`: the registers `V0` to `Vx`, `Vx` included, are loaded
    /// from `I` on.
    pub open spec fn load_regs(self, x: int) -> Machine {
        Machine {
            registers: Seq::new(
                16,
                |i: int|
                    if i <= x {
                        self.memory[self.index + i]
                    } else {
                        self.registers[i]
                    },
            ),
            ..self
        }
    }

    /// One tick of the timers: each goes down by one unless it is zero.
    pub open spec fn tick(self) -> Machine {
        Machine {
            delay_timer: if self.delay_timer > 0 {
                (self.delay_timer - 1) as u8
            } else {
                0
            },
            sound_timer: if self.sound_timer > 0 {
                (self.sound_timer - 1) as u8
            } else {
                0
            },
            ..self
        }
    }

    /// Whether the instruction in `opcode` touches only memory cells and
    /// keys that exist.
    pub open spec fn in_bounds(self) -> bool {
        match opcode_of(self.opcode) {
            Opcode::Drw => self.index + self.n() <= 4096,
            Opcode::Skp | Opcode::Sknp => self.reg(self.x()) < 16,
            Opcode::LdB => self.index + 2 < 4096,
            Opcode::LdMemVx | Opcode::LdVxMem => self.index + self.x() < 4096,
            _ => true,
        }
    }

    /// The effect of the instruction in `opcode`, with `random` as the byte
    /// that `RND` draws.
    pub open spec fn execute(self, random: u8) -> Result<Machine, Chip8Error> {
        let x = self.x();
        let y = self.y();
        let n = self.n();
        let kk = self.kk();
        let nnn = self.nnn();
        match opcode_of(self.opcode) {
            Opcode::Cls => Ok(self.cls()),
            Opcode::Ret => self.ret(),
            Opcode::Jp => Ok(self.jp(nnn)),
            Opcode::Call => self.call(nnn),
            Opcode::SeByte => Ok(self.se_byte(x, kk)),
            Opcode::SneByte => Ok(self.sne_byte(x, kk)),
            Opcode::SeReg => Ok(self.se_reg(x, y)),
            Opcode::LdByte => Ok(self.ld_byte(x, kk)),
            Opcode::AddByte => Ok(self.add_byte(x, kk)),
            Opcode::LdReg => Ok(self.ld_reg(x, y)),
            Opcode::Or => Ok(self.or_reg(x, y)),
            Opcode::And => Ok(self.and_reg(x, y)),
            Opcode::Xor => Ok(self.xor_reg(x, y)),
            Opcode::AddReg => Ok(self.add_reg(x, y)),
            Opcode::Sub => Ok(self.sub_reg(x, y)),
            Opcode::Shr => Ok(self.shr(x)),
            Opcode::Subn => Ok(self.subn_reg(x, y)),
            Opcode::Shl => Ok(self.shl(x)),
            Opcode::SneReg => Ok(self.sne_reg(x, y)),
            Opcode::LdI => Ok(self.ld_i(nnn)),
            Opcode::JpV0 => Ok(self.jp_v0(nnn)),
            Opcode::Rnd => Ok(self.rnd(x, kk, random)),
            Opcode::Drw => Ok(self.drw(x, y, n)),
            Opcode::Skp => Ok(self.skp(x)),
            Opcode::Sknp => Ok(self.sknp(x)),
            Opcode::LdVxDt => Ok(self.ld_vx_dt(x)),
            Opcode::LdVxK => Ok(self.wait_key(x)),
            Opcode::LdDtVx => Ok(self.ld_dt_vx(x)),
            Opcode::LdStVx => Ok(self.ld_st_vx(x)),
            Opcode::AddI => Ok(self.add_i(x)),
            Opcode::LdF => Ok(self.ld_f(x)),
            Opcode::LdB => Ok(self.ld_b(x)),
            Opcode::LdMemVx => Ok(self.store_regs(x)),
            Opcode::LdVxMem => Ok(self.load_regs(x)),
            Opcode::Nop => Ok(self),
        }
    }

    /// Whether the instruction in `opcode` may change the display.
    pub open spec fn redraws(self) -> bool {
        opcode_of(self.opcode) == Opcode::Cls || opcode_of(self.opcode) == Opcode::Drw
    }

    /// The instruction word at the program counter.
    pub open spec fn next_word(self) -> u16 {
        word_of(self.memory[self.pc as int], self.memory[self.pc + 1])
    }

    /// The machine after the fetch: the word at the program counter is in
    /// `opcode`, and the program counter has moved past it.
    pub open spec fn fetched(self) -> Machine {
        Machine { opcode: self.next_word(), ..self }.skip()
    }

    /// Whether the machine can execute its next instruction: it is well
    /// formed, the instruction lies in program memory, `0x200..=0xFFF`, with
    /// both its bytes, and it stays in bounds.
    pub open spec fn can_step(self) -> bool {
        &&& self.wf()
        &&& 0x200 <= self.pc
        &&& self.pc + 1 < 4096
        &&& self.fetched().in_bounds()
    }

    /// Whether the next instruction draws a random byte.
    pub open spec fn draws_random(self) -> bool {
        opcode_of(self.next_word()) == Opcode::Rnd
    }

    /// One instruction: fetch, then execute.
    pub open spec fn step(self, random: u8) -> Result<Machine, Chip8Error> {
        self.fetched().execute(random)
    }

    /// One instruction, then one tick of the timers.
    pub open spec fn cycle(self, random: u8) -> Result<Machine, Chip8Error> {
        match self.step(random) {
            Ok(next) => Ok(next.tick()),
            Err(e) => Err(e),
        }
    }

    /// Cycle after cycle, one for each byte of `randoms`, which the cycle
    /// takes as the byte that `RND` draws. The first error ends the run.
    pub open spec fn run(self, randoms: Seq<u8>) -> Result<Machine, Chip8Error>
        decreases randoms.len(),
    {
        if randoms.len() == 0 {
            Ok(self)
        } else {
            match self.run(randoms.drop_last()) {
                Ok(reached) => reached.cycle(randoms.last()),
                Err(e) => Err(e),
            }
        }
    }

    /// Whether `res` and `after` are what executing the instruction in
    /// `opcode` gives: on success whether the display may have changed, and
    /// the machine that follows; on failure the error, and the machine as it
    /// was.
    pub open spec fn execute_leaves(
        self,
        random: u8,
        res: Result<bool, Chip8Error>,
        after: Machine,
    ) -> bool {
        match self.execute(random) {
            Ok(next) => res == Ok::<bool, Chip8Error>(self.redraws()) && after == next,
            Err(e) => res == Err::<bool, Chip8Error>(e) && after == self,
        }
    }

    /// Whether `res` and `after` are what one step gives: on success whether
    /// the display may have changed, and the machine that follows; on
    /// failure the error, and the machine as it was before the fetch.
    pub open spec fn step_leaves(
        self,
        random: u8,
        res: Result<bool, Chip8Error>,
        after: Machine,
    ) -> bool {
        match self.step(random) {
            Ok(next) => res == Ok::<bool, Chip8Error>(self.fetched().redraws()) && after == next,
            Err(e) => res == Err::<bool, Chip8Error>(e) && after == self,
        }
    }

    /// Whether `res` and `after` are what one cycle gives: as for a step,
    /// with the timers ticked on success.
    pub open spec fn cycle_leaves(
        self,
        random: u8,
        res: Result<bool, Chip8Error>,
        after: Machine,
    ) -> bool {
        match self.cycle(random) {
            Ok(next) => res == Ok::<bool, Chip8Error>(self.fetched().redraws()) && after == next,
            Err(e) => res == Err::<bool, Chip8Error>(e) && after == self,
        }
    }
}

} // verus!
