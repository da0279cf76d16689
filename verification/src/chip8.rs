//! The executable machine and its instruction handlers.

use vstd::prelude::*;
use crate::display::{clear, draw_sprite};
use crate::error::Chip8Error;
use crate::font::{FONTSET, FONTSET_SIZE, FONTSET_START_ADDRESS, GLYPH_SIZE};
use crate::input::lowest_key;
use crate::instruction::{field_kk, field_n, field_nnn, field_x, field_y};
use crate::model::{Machine, MAX_ROM_SIZE, STACK_SIZE, START_ADDRESS};
use crate::random::random_byte;

verus! {

/// A CHIP-8 machine.
///
/// All fields are open to the host, which writes `keypad` before a cycle and
/// reads `video` and `sound_timer` after it. The one rule on them is that
/// `sp` does not exceed 16, the number of stack slots.
#[derive(Debug)]
pub struct Chip8 {
    /// The registers `V0` to `VF`. `VF` is the flag of the arithmetic and
    /// drawing instructions.
    pub registers: [u8; 16],
    /// Memory. The font lies at `0x050..0x0A0`, programs from `0x200` on.
    pub memory: [u8; 4096],
    /// The address register `I`.
    pub index: u16,
    /// The address of the next instruction.
    pub pc: u16,
    /// The return addresses of the subroutines being executed.
    pub stack: [u16; 16],
    /// The number of return addresses on the stack: the next free slot.
    pub sp: u8,
    /// The delay timer.
    pub delay_timer: u8,
    /// The sound timer: the host sounds a tone while it is not zero.
    pub sound_timer: u8,
    /// For each of the sixteen keys, whether it is held.
    pub keypad: [bool; 16],
    /// The 64×32 pixels of the display, row by row, `true` for on.
    pub video: [bool; 2048],
    /// The instruction word being executed.
    pub opcode: u16,
}

impl View for Chip8 {
    type V = Machine;

    open spec fn view(&self) -> Machine {
        Machine {
            registers: self.registers@,
            memory: self.memory@,
            index: self.index,
            pc: self.pc,
            stack: self.stack@,
            sp: self.sp,
            delay_timer: self.delay_timer,
            sound_timer: self.sound_timer,
            keypad: self.keypad@,
            video: self.video@,
            opcode: self.opcode,
        }
    }
}

impl Clone for Chip8 {
    /// A copy of the machine, equal to it field by field.
    fn clone(&self) -> (copy: Self)
        ensures
            copy == *self,
    {
        Chip8 {
            registers: self.registers,
            memory: self.memory,
            index: self.index,
            pc: self.pc,
            stack: self.stack,
            sp: self.sp,
            delay_timer: self.delay_timer,
            sound_timer: self.sound_timer,
            keypad: self.keypad,
            video: self.video,
            opcode: self.opcode,
        }
    }
}

/// Writes the font to `memory[0x050..0x0A0]`.
fn write_font(memory: &mut [u8; 4096])
    ensures
        forall|a: int|
            0 <= a < 4096 ==> final(memory)@[a] == if 0x50 <= a < 0xA0 {
                FONTSET@[a - 0x50]
            } else {
                old(memory)@[a]
            },
{
    let mut i: usize = 0;
    while i < FONTSET_SIZE
        invariant
            i <= 80,
            forall|a: int|
                0 <= a < 4096 ==> memory@[a] == if 0x50 <= a < 0x50 + i {
                    FONTSET@[a - 0x50]
                } else {
                    old(memory)@[a]
                },
        decreases 80 - i,
    {
        memory[FONTSET_START_ADDRESS + i] = FONTSET[i];
        i += 1;
    }
}

/// Writes a program image to memory from `0x200` on.
fn write_rom(memory: &mut [u8; 4096], rom: &[u8])
    requires
        rom@.len() <= 3584,
    ensures
        forall|a: int|
            0 <= a < 4096 ==> final(memory)@[a] == if 0x200 <= a < 0x200 + rom@.len() {
                rom@[a - 0x200]
            } else {
                old(memory)@[a]
            },
{
    let mut i: usize = 0;
    while i < rom.len()
        invariant
            i <= rom@.len() <= 3584,
            forall|a: int|
                0 <= a < 4096 ==> memory@[a] == if 0x200 <= a < 0x200 + i {
                    rom@[a - 0x200]
                } else {
                    old(memory)@[a]
                },
        decreases rom@.len() - i,
    {
        memory[START_ADDRESS as usize + i] = rom[i];
        i += 1;
    }
}

/// Copies the registers `V0..=Vx` to memory from `start` on.
fn store_registers(memory: &mut [u8; 4096], registers: &[u8; 16], start: usize, x: usize)
    requires
        x < 16,
        start + x < 4096,
    ensures
        forall|a: int|
            0 <= a < 4096 ==> final(memory)@[a] == if start <= a <= start + x {
                registers@[a - start]
            } else {
                old(memory)@[a]
            },
{
    let mut i: usize = 0;
    while i <= x
        invariant
            i <= x + 1,
            x < 16,
            start + x < 4096,
            forall|a: int|
                0 <= a < 4096 ==> memory@[a] == if start <= a < start + i {
                    registers@[a - start]
                } else {
                    old(memory)@[a]
                },
        decreases x + 1 - i,
    {
        memory[start + i] = registers[i];
        i += 1;
    }
}

/// Copies memory from `start` on to the registers `V0..=Vx`.
fn load_registers(registers: &mut [u8; 16], memory: &[u8; 4096], start: usize, x: usize)
    requires
        x < 16,
        start + x < 4096,
    ensures
        forall|i: int|
            0 <= i < 16 ==> final(registers)@[i] == if i <= x {
                memory@[start + i]
            } else {
                old(registers)@[i]
            },
{
    let mut i: usize = 0;
    while i <= x
        invariant
            i <= x + 1,
            x < 16,
            start + x < 4096,
            forall|j: int|
                0 <= j < 16 ==> registers@[j] == if j < i {
                    memory@[start + j]
                } else {
                    old(registers)@[j]
                },
        decreases x + 1 - i,
    {
        registers[i] = memory[start + i];
        i += 1;
    }
}

impl Chip8 {
    /// A machine with everything zero, the display blank and the program
    /// counter at `0x200`.
    pub fn new() -> (chip: Chip8)
        ensures
            chip@ == Machine::initial(),
            chip@.wf(),
    {
        Chip8 {
            registers: [0; 16],
            memory: [0; 4096],
            index: 0,
            pc: START_ADDRESS,
            stack: [0; 16],
            sp: 0,
            delay_timer: 0,
            sound_timer: 0,
            keypad: [false; 16],
            video: [false; 2048],
            opcode: 0,
        }
    }

    /// Writes the built-in font to `0x050..0x0A0`; nothing else changes.
    pub fn load_fonts(&mut self)
        ensures
            final(self)@ == old(self)@.with_font(),
    {
        write_font(&mut self.memory);
    }

    /// Writes a program image to memory from `0x200` on.
    ///
    /// An image of more than 3584 bytes does not fit: it is refused with
    /// `RomTooLarge` and the machine is left as it was.
    pub fn load_rom(&mut self, rom: &[u8]) -> (res: Result<(), Chip8Error>)
        ensures
            rom@.len() <= 3584 ==> res == Ok::<(), Chip8Error>(())
                && final(self)@ == old(self)@.with_rom(rom@),
            rom@.len() > 3584 ==> res == Err::<(), Chip8Error>(Chip8Error::RomTooLarge)
                && final(self)@ == old(self)@,
    {
        if rom.len() > MAX_ROM_SIZE {
            return Err(Chip8Error::RomTooLarge);
        }
        write_rom(&mut self.memory, rom);
        Ok(())
    }

    /// `00E0` (`CLS`): turns every pixel off, whatever the display held.
    pub fn op_00e0(&mut self)
        ensures
            final(self)@ == old(self)@.cls(),
            forall|i: int| 0 <= i < 2048 ==> !final(self).video@[i],
    {
        clear(&mut self.video);
    }

    /// `00EE` (`RET`): pops the return address into the program counter.
    ///
    /// With an empty stack it fails with `StackUnderflow` and changes
    /// nothing.
    pub fn op_00ee(&mut self) -> (res: Result<(), Chip8Error>)
        requires
            old(self)@.wf(),
        ensures
            res is Err <==> old(self).sp == 0,
            match old(self)@.ret() {
                Ok(next) => res == Ok::<(), Chip8Error>(()) && final(self)@ == next,
                Err(e) => res == Err::<(), Chip8Error>(e) && final(self)@ == old(self)@,
            },
    {
        if self.sp == 0 {
            return Err(Chip8Error::StackUnderflow);
        }
        self.sp -= 1;
        self.pc = self.stack[self.sp as usize];
        Ok(())
    }

    /// `1nnn` (`JP nnn`): jumps to `nnn`.
    pub fn op_1nnn(&mut self)
        ensures
            final(self)@ == old(self)@.jp(old(self)@.nnn()),
    {
        self.pc = field_nnn(self.opcode);
    }

    /// `2nnn` (`CALL nnn`): pushes the program counter and jumps to `nnn`.
    ///
    /// With all sixteen slots in use it fails with `StackOverflow` and
    /// changes nothing.
    pub fn op_2nnn(&mut self) -> (res: Result<(), Chip8Error>)
        ensures
            res is Err <==> old(self).sp >= 16,
            match old(self)@.call(old(self)@.nnn()) {
                Ok(next) => res == Ok::<(), Chip8Error>(()) && final(self)@ == next,
                Err(e) => res == Err::<(), Chip8Error>(e) && final(self)@ == old(self)@,
            },
    {
        if self.sp as usize >= STACK_SIZE {
            return Err(Chip8Error::StackOverflow);
        }
        self.stack[self.sp as usize] = self.pc;
        self.sp += 1;
        self.pc = field_nnn(self.opcode);
        Ok(())
    }

    /// `3xkk` (`SE Vx, kk`): skips the next instruction if `Vx == kk`.
    pub fn op_3xkk(&mut self)
        ensures
            final(self)@ == old(self)@.se_byte(old(self)@.x(), old(self)@.kk()),
    {
        let x: usize = field_x(self.opcode);
        let kk: u8 = field_kk(self.opcode);
        if self.registers[x] == kk {
            self.pc = self.pc.wrapping_add(2);
        }
    }

    /// `4xkk` (`SNE Vx, kk`): skips the next instruction if `Vx != kk`.
    pub fn op_4xkk(&mut self)
        ensures
            final(self)@ == old(self)@.sne_byte(old(self)@.x(), old(self)@.kk()),
    {
        let x: usize = field_x(self.opcode);
        let kk: u8 = field_kk(self.opcode);
        if self.registers[x] != kk {
            self.pc = self.pc.wrapping_add(2);
        }
    }

    /// `5xy0` (`SE Vx, Vy`): skips the next instruction if `Vx == Vy`.
    pub fn op_5xy0(&mut self)
        ensures
            final(self)@ == old(self)@.se_reg(old(self)@.x(), old(self)@.y()),
    {
        let x: usize = field_x(self.opcode);
        let y: usize = field_y(self.opcode);
        if self.registers[x] == self.registers[y] {
            self.pc = self.pc.wrapping_add(2);
        }
    }

    /// `6xkk` (`LD Vx, kk`): `Vx = kk`.
    pub fn op_6xkk(&mut self)
        ensures
            final(self)@ == old(self)@.ld_byte(old(self)@.x(), old(self)@.kk()),
    {
        let x: usize = field_x(self.opcode);
        self.registers[x] = field_kk(self.opcode);
    }

    /// `7xkk` (`ADD Vx, kk`): `Vx = (Vx + kk) mod 256`. `VF` is not
    /// touched.
    pub fn op_7xkk(&mut self)
        ensures
            final(self)@ == old(self)@.add_byte(old(self)@.x(), old(self)@.kk()),
    {
        let x: usize = field_x(self.opcode);
        let kk: u8 = field_kk(self.opcode);
        self.registers[x] = self.registers[x].wrapping_add(kk);
    }

    /// `8xy0` (`LD Vx, Vy`): `Vx = Vy`.
    pub fn op_8xy0(&mut self)
        ensures
            final(self)@ == old(self)@.ld_reg(old(self)@.x(), old(self)@.y()),
    {
        let x: usize = field_x(self.opcode);
        let y: usize = field_y(self.opcode);
        self.registers[x] = self.registers[y];
    }

    /// `8xy1` (`OR Vx, Vy`): `Vx = Vx | Vy`.
    pub fn op_8xy1(&mut self)
        ensures
            final(self)@ == old(self)@.or_reg(old(self)@.x(), old(self)@.y()),
    {
        let x: usize = field_x(self.opcode);
        let y: usize = field_y(self.opcode);
        self.registers[x] = self.registers[x] | self.registers[y];
    }

    /// `8xy2` (`AND Vx, Vy`): `Vx = Vx & Vy`.
    pub fn op_8xy2(&mut self)
        ensures
            final(self)@ == old(self)@.and_reg(old(self)@.x(), old(self)@.y()),
    {
        let x: usize = field_x(self.opcode);
        let y: usize = field_y(self.opcode);
        self.registers[x] = self.registers[x] & self.registers[y];
    }

    /// `8xy3` (`XOR Vx, Vy`): `Vx = Vx ^ Vy`.
    pub fn op_8xy3(&mut self)
        ensures
            final(self)@ == old(self)@.xor_reg(old(self)@.x(), old(self)@.y()),
    {
        let x: usize = field_x(self.opcode);
        let y: usize = field_y(self.opcode);
        self.registers[x] = self.registers[x] ^ self.registers[y];
    }

    /// `8xy4` (`ADD Vx, Vy`): `Vx = (Vx + Vy) mod 256`, then `VF` = 1 if the
    /// sum exceeds 255, else 0. The sum is formed in sixteen bits, so the
    /// carry is not lost.
    pub fn op_8xy4(&mut self)
        ensures
            final(self)@ == old(self)@.add_reg(old(self)@.x(), old(self)@.y()),
    {
        let x: usize = field_x(self.opcode);
        let y: usize = field_y(self.opcode);
        let sum: u16 = self.registers[x] as u16 + self.registers[y] as u16;
        self.registers[x] = (sum % 256) as u8;
        self.registers[0xF] = if sum > 255 {
            1
        } else {
            0
        };
    }

    /// `8xy5` (`SUB Vx, Vy`): `VF` = 1 if `Vx > Vy`, else 0, then
    /// `Vx = (Vx - Vy) mod 256`, both from the registers as they were
    /// before the instruction.
    pub fn op_8xy5(&mut self)
        ensures
            final(self)@ == old(self)@.sub_reg(old(self)@.x(), old(self)@.y()),
    {
        let x: usize = field_x(self.opcode);
        let y: usize = field_y(self.opcode);
        let a: u8 = self.registers[x];
        let b: u8 = self.registers[y];
        self.registers[0xF] = if a > b {
            1
        } else {
            0
        };
        self.registers[x] = a.wrapping_sub(b);
    }

    /// `8xy6` (`SHR Vx`): `VF` = the lowest bit of `Vx`, then `Vx` = its
    /// former value shifted right by one.
    pub fn op_8xy6(&mut self)
        ensures
            final(self)@ == old(self)@.shr(old(self)@.x()),
    {
        let x: usize = field_x(self.opcode);
        let a: u8 = self.registers[x];
        self.registers[0xF] = a & 1;
        self.registers[x] = a >> 1u8;
    }

    /// `8xy7` (`SUBN Vx, Vy`): `VF` = 1 if `Vy > Vx`, else 0, then
    /// `Vx = (Vy - Vx) mod 256`, both from the registers as they were
    /// before the instruction.
    pub fn op_8xy7(&mut self)
        ensures
            final(self)@ == old(self)@.subn_reg(old(self)@.x(), old(self)@.y()),
    {
        let x: usize = field_x(self.opcode);
        let y: usize = field_y(self.opcode);
        let a: u8 = self.registers[x];
        let b: u8 = self.registers[y];
        self.registers[0xF] = if b > a {
            1
        } else {
            0
        };
        self.registers[x] = b.wrapping_sub(a);
    }

    /// `8xyE` (`SHL Vx`): `VF` = the highest bit of `Vx`, then `Vx` = its
    /// former value shifted left by one, modulo 256.
    pub fn op_8xye(&mut self)
        ensures
            final(self)@ == old(self)@.shl(old(self)@.x()),
    {
        let x: usize = field_x(self.opcode);
        let a: u8 = self.registers[x];
        self.registers[0xF] = (a & 0x80) >> 7u8;
        self.registers[x] = a << 1u8;
    }

    /// `9xy0` (`SNE Vx, Vy`): skips the next instruction if `Vx != Vy`.
    pub fn op_9xy0(&mut self)
        ensures
            final(self)@ == old(self)@.sne_reg(old(self)@.x(), old(self)@.y()),
    {
        let x: usize = field_x(self.opcode);
        let y: usize = field_y(self.opcode);
        if self.registers[x] != self.registers[y] {
            self.pc = self.pc.wrapping_add(2);
        }
    }

    /// `Annn` (`LD I, nnn`): `I = nnn`.
    pub fn op_annn(&mut self)
        ensures
            final(self)@ == old(self)@.ld_i(old(self)@.nnn()),
    {
        self.index = field_nnn(self.opcode);
    }

    /// `Bnnn` (`JP V0, nnn`): jumps to `V0 + nnn`.
    pub fn op_bnnnn(&mut self)
        ensures
            final(self)@ == old(self)@.jp_v0(old(self)@.nnn()),
    {
        self.pc = self.registers[0] as u16 + field_nnn(self.opcode);
    }

    /// `Cxkk` (`RND Vx, kk`) for a given random byte:
    /// `Vx = random & kk`.
    pub fn op_cxkk_with(&mut self, random: u8)
        ensures
            final(self)@ == old(self)@.rnd(old(self)@.x(), old(self)@.kk(), random),
    {
        let x: usize = field_x(self.opcode);
        self.registers[x] = random & field_kk(self.opcode);
    }

    /// `Cxkk` (`RND Vx, kk`): `Vx` = a random byte masked by `kk`.
    ///
    /// The byte comes from the thread's random generator, so all that is
    /// known of the outcome is that it is the outcome for some byte.
    pub fn op_cxkk(&mut self)
        ensures
            exists|random: u8|
                final(self)@ == #[trigger] old(self)@.rnd(
                    old(self)@.x(),
                    old(self)@.kk(),
                    random,
                ),
    {
        let random: u8 = random_byte();
        self.op_cxkk_with(random);
    }

    /// `Dxyn` (`DRW Vx, Vy, n`): draws the `n`-row sprite at `I` with its
    /// top left corner at column `Vx mod 64`, row `Vy mod 32`.
    ///
    /// Each pixel under a set sprite bit is flipped; sprite pixels beyond
    /// the right or the bottom edge are dropped. `VF` = 1 if a pixel was
    /// turned off, else 0.
    pub fn op_dxyn(&mut self)
        requires
            old(self).index + old(self)@.n() <= 4096,
        ensures
            final(self)@ == old(self)@.drw(old(self)@.x(), old(self)@.y(), old(self)@.n()),
    {
        let x: usize = field_x(self.opcode);
        let y: usize = field_y(self.opcode);
        let n: u8 = field_n(self.opcode);
        let x0: u8 = self.registers[x] % 64;
        let y0: u8 = self.registers[y] % 32;
        let collision = draw_sprite(
            &mut self.video,
            &self.memory,
            self.index as usize,
            n as usize,
            x0 as usize,
            y0 as usize,
        );
        self.registers[0xF] = if collision {
            1
        } else {
            0
        };
    }

    /// `Ex9E` (`SKP Vx`): skips the next instruction if the key whose
    /// number is in `Vx` is held.
    pub fn op_ex9e(&mut self)
        requires
            old(self)@.reg(old(self)@.x()) < 16,
        ensures
            final(self)@ == old(self)@.skp(old(self)@.x()),
    {
        let x: usize = field_x(self.opcode);
        if self.keypad[self.registers[x] as usize] {
            self.pc = self.pc.wrapping_add(2);
        }
    }

    /// `ExA1` (`SKNP Vx`): skips the next instruction if the key whose
    /// number is in `Vx` is not held.
    pub fn op_exa1(&mut self)
        requires
            old(self)@.reg(old(self)@.x()) < 16,
        ensures
            final(self)@ == old(self)@.sknp(old(self)@.x()),
    {
        let x: usize = field_x(self.opcode);
        if !self.keypad[self.registers[x] as usize] {
            self.pc = self.pc.wrapping_add(2);
        }
    }

    /// `Fx07` (`LD Vx, DT`): `Vx` = delay timer.
    pub fn op_fx07(&mut self)
        ensures
            final(self)@ == old(self)@.ld_vx_dt(old(self)@.x()),
    {
        let x: usize = field_x(self.opcode);
        self.registers[x] = self.delay_timer;
    }

    /// `Fx0A` (`LD Vx, K`): waits for a key.
    ///
    /// With a key held, `Vx` gets the number of the lowest one. With none,
    /// the program counter goes back by two, so that the next cycle
    /// executes this instruction again.
    pub fn op_fx0a(&mut self)
        ensures
            final(self)@ == old(self)@.wait_key(old(self)@.x()),
    {
        let x: usize = field_x(self.opcode);
        match lowest_key(&self.keypad) {
            Some(k) => {
                self.registers[x] = k;
            },
            None => {
                self.pc = self.pc.wrapping_sub(2);
            },
        }
    }

    /// `Fx15` (`LD DT, Vx`): delay timer = `Vx`.
    pub fn op_fx15(&mut self)
        ensures
            final(self)@ == old(self)@.ld_dt_vx(old(self)@.x()),
    {
        let x: usize = field_x(self.opcode);
        self.delay_timer = self.registers[x];
    }

    /// `Fx18` (`LD ST, Vx`): sound timer = `Vx`.
    pub fn op_fx18(&mut self)
        ensures
            final(self)@ == old(self)@.ld_st_vx(old(self)@.x()),
    {
        let x: usize = field_x(self.opcode);
        self.sound_timer = self.registers[x];
    }

    /// `Fx1E` (`ADD I, Vx`): `I = (I + Vx) mod 65536`.
    pub fn op_fx1e(&mut self)
        ensures
            final(self)@ == old(self)@.add_i(old(self)@.x()),
    {
        let x: usize = field_x(self.opcode);
        self.index = self.index.wrapping_add(self.registers[x] as u16);
    }

    /// `Fx29` (`LD F, Vx`): `I` = the address of the glyph for the digit in
    /// the low four bits of `Vx`, `0x050 + 5 * digit`.
    pub fn op_fx29(&mut self)
        ensures
            final(self)@ == old(self)@.ld_f(old(self)@.x()),
    {
        let x: usize = field_x(self.opcode);
        let value: u8 = self.registers[x];
        let digit: u8 = value & 0xF;
        let glyph: usize = FONTSET_START_ADDRESS + GLYPH_SIZE * digit as usize;
        self.index = glyph as u16;
    }

    /// `Fx33` (`LD B, Vx`): stores the hundreds, tens and ones of `Vx` at
    /// `I`, `I + 1` and `I + 2`.
    pub fn op_fx33(&mut self)
        requires
            old(self).index + 2 < 4096,
        ensures
            final(self)@ == old(self)@.ld_b(old(self)@.x()),
    {
        let x: usize = field_x(self.opcode);
        let value: u8 = self.registers[x];
        let at: usize = self.index as usize;
        self.memory[at] = value / 100;
        self.memory[at + 1] = (value / 10) % 10;
        self.memory[at + 2] = value % 10;
    }

    /// `Fx55` (`LD [I], Vx`): stores the registers `V0` to `Vx`, `Vx`
    /// included, in memory from `I` on.
    pub fn op_fx55(&mut self)
        requires
            old(self).index + old(self)@.x() < 4096,
        ensures
            final(self)@ == old(self)@.store_regs(old(self)@.x()),
    {
        let x: usize = field_x(self.opcode);
        store_registers(&mut self.memory, &self.registers, self.index as usize, x);
    }

    /// `Fx65` (`LD Vx, [I]`): loads the registers `V0` to `Vx`, `Vx`
    /// included, from memory from `I` on.
    pub fn op_fx65(&mut self)
        requires
            old(self).index + old(self)@.x() < 4096,
        ensures
            final(self)@ == old(self)@.load_regs(old(self)@.x()),
    {
        let x: usize = field_x(self.opcode);
        load_registers(&mut self.registers, &self.memory, self.index as usize, x);
    }

    /// The instruction without effect, executed for every word that
    /// encodes no other.
    pub fn op_null(&mut self)
        ensures
            final(self)@ == old(self)@,
    {
    }

    /// One tick of the timers: each goes down by one unless it is zero.
    pub fn tick_timers(&mut self)
        ensures
            final(self)@ == old(self)@.tick(),
    {
        if self.delay_timer > 0 {
            self.delay_timer -= 1;
        }
        if self.sound_timer > 0 {
            self.sound_timer -= 1;
        }
    }
}

} // verus!
