//! Instruction words: their nibble fields and the decoder.
//!
//! A CHIP-8 instruction is a 16-bit big-endian word. Its top nibble selects
//! a family of instructions; the lower nibbles hold register numbers
//! (`x`, `y`), a 4-bit count (`n`), an 8-bit constant (`kk`) or a 12-bit
//! address (`nnn`).

use vstd::prelude::*;

verus! {

/// The word made of a high byte and a low byte, big-endian.
pub open spec fn word_of(hi: u8, lo: u8) -> u16 {
    ((hi as u16) << 8) | (lo as u16)
}

/// The top nibble of a word: its instruction family.
pub open spec fn kind_of(word: u16) -> u16 {
    word >> 12
}

/// The second nibble: the register number `x`.
pub open spec fn x_of(word: u16) -> u16 {
    (word >> 8) & 0xF
}

/// The third nibble: the register number `y`.
pub open spec fn y_of(word: u16) -> u16 {
    (word >> 4) & 0xF
}

/// The lowest nibble: the count `n`.
pub open spec fn n_of(word: u16) -> u16 {
    word & 0xF
}

/// The low byte: the constant `kk`.
pub open spec fn kk_of(word: u16) -> u16 {
    word & 0xFF
}

/// The low twelve bits: the address `nnn`.
pub open spec fn nnn_of(word: u16) -> u16 {
    word & 0xFFF
}

/// The fields of a word are its hexadecimal digits: the bitwise definitions
/// agree with division and remainder.
pub proof fn lemma_fields_are_digits(word: u16)
    ensures
        kind_of(word) == word / 4096,
        x_of(word) == (word / 256) % 16,
        y_of(word) == (word / 16) % 16,
        n_of(word) == word % 16,
        kk_of(word) == word % 256,
        nnn_of(word) == word % 4096,
        kind_of(word) < 16,
        x_of(word) < 16,
        y_of(word) < 16,
        n_of(word) < 16,
        kk_of(word) < 256,
        nnn_of(word) < 4096,
{
    assert(word >> 12 == word / 4096) by (bit_vector);
    assert((word >> 8) & 0xF == (word / 256) % 16) by (bit_vector);
    assert((word >> 4) & 0xF == (word / 16) % 16) by (bit_vector);
    assert(word & 0xF == word % 16) by (bit_vector);
    assert(word & 0xFF == word % 256) by (bit_vector);
    assert(word & 0xFFF == word % 4096) by (bit_vector);
}

/// A big-endian word is `256 * hi + lo`.
pub proof fn lemma_word_of(hi: u8, lo: u8)
    ensures
        word_of(hi, lo) == 256 * hi + lo,
{
    assert(((hi as u16) << 8) | (lo as u16) == 256 * hi + lo) by (bit_vector);
}

/// Joins two bytes into a big-endian word.
pub fn make_word(hi: u8, lo: u8) -> (word: u16)
    ensures
        word == word_of(hi, lo),
{
    ((hi as u16) << 8) | (lo as u16)
}

/// The top nibble of a word.
pub fn field_kind(word: u16) -> (kind: u8)
    ensures
        kind == kind_of(word),
        kind < 16,
{
    proof {
        lemma_fields_are_digits(word);
    }
    (word >> 12) as u8
}

/// The register number `x` of a word.
pub fn field_x(word: u16) -> (x: usize)
    ensures
        x == x_of(word),
        x < 16,
{
    proof {
        lemma_fields_are_digits(word);
    }
    ((word >> 8) & 0xF) as usize
}

/// The register number `y` of a word.
pub fn field_y(word: u16) -> (y: usize)
    ensures
        y == y_of(word),
        y < 16,
{
    proof {
        lemma_fields_are_digits(word);
    }
    ((word >> 4) & 0xF) as usize
}

/// The count `n` of a word.
pub fn field_n(word: u16) -> (n: u8)
    ensures
        n == n_of(word),
        n < 16,
{
    proof {
        lemma_fields_are_digits(word);
    }
    (word & 0xF) as u8
}

/// The constant `kk` of a word.
pub fn field_kk(word: u16) -> (kk: u8)
    ensures
        kk == kk_of(word),
{
    proof {
        lemma_fields_are_digits(word);
    }
    (word & 0xFF) as u8
}

/// The address `nnn` of a word.
pub fn field_nnn(word: u16) -> (nnn: u16)
    ensures
        nnn == nnn_of(word),
        nnn < 4096,
{
    proof {
        lemma_fields_are_digits(word);
    }
    word & 0xFFF
}

/// The instructions of the machine. `Nop` stands for every word that is none
/// of the others: it is executed as an instruction without effect.
#[derive(Clone, Copy, Debug, PartialEq, Eq, Structural)]
pub enum Opcode {
    /// `00E0`: clear the display.
    Cls,
    /// `00EE`: return from a subroutine.
    Ret,
    /// `1nnn`: jump to `nnn`.
    Jp,
    /// `2nnn`: call the subroutine at `nnn`.
    Call,
    /// `3xkk`: skip the next instruction if `Vx == kk`.
    SeByte,
    /// `4xkk`: skip the next instruction if `Vx != kk`.
    SneByte,
    /// `5xy0`: skip the next instruction if `Vx == Vy`.
    SeReg,
    /// `6xkk`: `Vx = kk`.
    LdByte,
    /// `7xkk`: `Vx = Vx + kk`, without a flag.
    AddByte,
    /// `8xy0`: `Vx = Vy`.
    LdReg,
    /// `8xy1`: `Vx = Vx | Vy`.
    Or,
    /// `8xy2`: `Vx = Vx & Vy`.
    And,
    /// `8xy3`: `Vx = Vx ^ Vy`.
    Xor,
    /// `8xy4`: `Vx = Vx + Vy`, `VF` = carry.
    AddReg,
    /// `8xy5`: `Vx = Vx - Vy`, `VF` = no borrow.
    Sub,
    /// `8xy6`: `Vx = Vx >> 1`, `VF` = the bit shifted out.
    Shr,
    /// `8xy7`: `Vx = Vy - Vx`, `VF` = no borrow.
    Subn,
    /// `8xyE`: `Vx = Vx << 1`, `VF` = the bit shifted out.
    Shl,
    /// `9xy0`: skip the next instruction if `Vx != Vy`.
    SneReg,
    /// `Annn`: `I = nnn`.
    LdI,
    /// `Bnnn`: jump to `nnn + V0`.
    JpV0,
    /// `Cxkk`: `Vx` = a random byte masked by `kk`.
    Rnd,
    /// `Dxyn`: draw an `n`-row sprite at `(Vx, Vy)`, `VF` = collision.
    Drw,
    /// `Ex9E`: skip the next instruction if key `Vx` is held.
    Skp,
    /// `ExA1`: skip the next instruction if key `Vx` is not held.
    Sknp,
    /// `Fx07`: `Vx` = delay timer.
    LdVxDt,
    /// `Fx0A`: wait for a key and store its number in `Vx`.
    LdVxK,
    /// `Fx15`: delay timer = `Vx`.
    LdDtVx,
    /// `Fx18`: sound timer = `Vx`.
    LdStVx,
    /// `Fx1E`: `I = I + Vx`.
    AddI,
    /// `Fx29`: `I` = address of the glyph for the digit in `Vx`.
    LdF,
    /// `Fx33`: store the three decimal digits of `Vx` at `I`.
    LdB,
    /// `Fx55`: store `V0..=Vx` at `I`.
    LdMemVx,
    /// `Fx65`: load `V0..=Vx` from `I`.
    LdVxMem,
    /// Any other word.
    Nop,
}

/// The instruction that a word encodes.
///
/// The top nibble selects the family. Within the families `0`, `8` and `E`
/// the lowest nibble tells the instructions apart, within the family `F` the
/// low byte does.
pub open spec fn opcode_of(word: u16) -> Opcode {
    let kind = kind_of(word);
    let n = n_of(word);
    let kk = kk_of(word);
    if kind == 0x0 {
        if n == 0x0 {
            Opcode::Cls
        } else if n == 0xE {
            Opcode::Ret
        } else {
            Opcode::Nop
        }
    } else if kind == 0x1 {
        Opcode::Jp
    } else if kind == 0x2 {
        Opcode::Call
    } else if kind == 0x3 {
        Opcode::SeByte
    } else if kind == 0x4 {
        Opcode::SneByte
    } else if kind == 0x5 {
        Opcode::SeReg
    } else if kind == 0x6 {
        Opcode::LdByte
    } else if kind == 0x7 {
        Opcode::AddByte
    } else if kind == 0x8 {
        if n == 0x0 {
            Opcode::LdReg
        } else if n == 0x1 {
            Opcode::Or
        } else if n == 0x2 {
            Opcode::And
        } else if n == 0x3 {
            Opcode::Xor
        } else if n == 0x4 {
            Opcode::AddReg
        } else if n == 0x5 {
            Opcode::Sub
        } else if n == 0x6 {
            Opcode::Shr
        } else if n == 0x7 {
            Opcode::Subn
        } else if n == 0xE {
            Opcode::Shl
        } else {
            Opcode::Nop
        }
    } else if kind == 0x9 {
        Opcode::SneReg
    } else if kind == 0xA {
        Opcode::LdI
    } else if kind == 0xB {
        Opcode::JpV0
    } else if kind == 0xC {
        Opcode::Rnd
    } else if kind == 0xD {
        Opcode::Drw
    } else if kind == 0xE {
        if n == 0x1 {
            Opcode::Sknp
        } else if n == 0xE {
            Opcode::Skp
        } else {
            Opcode::Nop
        }
    } else if kind == 0xF {
        if kk == 0x07 {
            Opcode::LdVxDt
        } else if kk == 0x0A {
            Opcode::LdVxK
        } else if kk == 0x15 {
            Opcode::LdDtVx
        } else if kk == 0x18 {
            Opcode::LdStVx
        } else if kk == 0x1E {
            Opcode::AddI
        } else if kk == 0x29 {
            Opcode::LdF
        } else if kk == 0x33 {
            Opcode::LdB
        } else if kk == 0x55 {
            Opcode::LdMemVx
        } else if kk == 0x65 {
            Opcode::LdVxMem
        } else {
            Opcode::Nop
        }
    } else {
        Opcode::Nop
    }
}

/// A decoded instruction: what it does, and the fields of its word.
#[derive(Clone, Copy, Debug, PartialEq, Eq, Structural)]
pub struct Instruction {
    /// The instruction.
    pub op: Opcode,
    /// The top nibble of the word, below 16.
    pub kind: u8,
    /// The register number `x`, below 16.
    pub x: usize,
    /// The register number `y`, below 16.
    pub y: usize,
    /// The count `n`, below 16.
    pub n: u8,
    /// The constant `kk`.
    pub kk: u8,
    /// The address `nnn`, below 4096.
    pub nnn: u16,
}

/// The decoded form of a word.
pub open spec fn decoded(word: u16) -> Instruction {
    Instruction {
        op: opcode_of(word),
        kind: kind_of(word) as u8,
        x: x_of(word) as usize,
        y: y_of(word) as usize,
        n: n_of(word) as u8,
        kk: kk_of(word) as u8,
        nnn: nnn_of(word),
    }
}

/// Decodes an instruction word.
pub fn decode(word: u16) -> (ins: Instruction)
    ensures
        ins == decoded(word),
        ins.kind < 16,
        ins.x < 16,
        ins.y < 16,
        ins.n < 16,
        ins.nnn < 4096,
{
    let kind: u8 = field_kind(word);
    let n: u8 = field_n(word);
    let kk: u8 = field_kk(word);
    let op = match kind {
        0x0 => match n {
            0x0 => Opcode::Cls,
            0xE => Opcode::Ret,
            _ => Opcode::Nop,
        },
        0x1 => Opcode::Jp,
        0x2 => Opcode::Call,
        0x3 => Opcode::SeByte,
        0x4 => Opcode::SneByte,
        0x5 => Opcode::SeReg,
        0x6 => Opcode::LdByte,
        0x7 => Opcode::AddByte,
        0x8 => match n {
            0x0 => Opcode::LdReg,
            0x1 => Opcode::Or,
            0x2 => Opcode::And,
            0x3 => Opcode::Xor,
            0x4 => Opcode::AddReg,
            0x5 => Opcode::Sub,
            0x6 => Opcode::Shr,
            0x7 => Opcode::Subn,
            0xE => Opcode::Shl,
            _ => Opcode::Nop,
        },
        0x9 => Opcode::SneReg,
        0xA => Opcode::LdI,
        0xB => Opcode::JpV0,
        0xC => Opcode::Rnd,
        0xD => Opcode::Drw,
        0xE => match n {
            0x1 => Opcode::Sknp,
            0xE => Opcode::Skp,
            _ => Opcode::Nop,
        },
        0xF => match kk {
            0x07 => Opcode::LdVxDt,
            0x0A => Opcode::LdVxK,
            0x15 => Opcode::LdDtVx,
            0x18 => Opcode::LdStVx,
            0x1E => Opcode::AddI,
            0x29 => Opcode::LdF,
            0x33 => Opcode::LdB,
            0x55 => Opcode::LdMemVx,
            0x65 => Opcode::LdVxMem,
            _ => Opcode::Nop,
        },
        _ => Opcode::Nop,
    };
    Instruction { op, kind, x: field_x(word), y: field_y(word), n, kk, nnn: field_nnn(word) }
}

} // verus!
