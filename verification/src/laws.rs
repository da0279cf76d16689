//! Laws of the machine: what holds of every state, proved from the model.

use vstd::prelude::*;
use crate::display::{blank, blit, pixel, sprite_bit, sprite_hits};
use crate::error::Chip8Error;
use crate::input::{any_held, is_lowest_held};
use crate::instruction::{
    lemma_fields_are_digits, lemma_word_of, nnn_of, opcode_of, word_of, Opcode,
};
use crate::model::Machine;

verus! {

/// An instruction that stays in bounds leaves a well-formed machine well
/// formed: the stack pointer stays within the stack, and nothing grows or
/// shrinks.
pub proof fn law_execute_keeps_wf(m: Machine, random: u8)
    requires
        m.wf(),
        m.in_bounds(),
    ensures
        m.execute(random) matches Ok(next) ==> next.wf(),
{
    lemma_fields_are_digits(m.opcode);
}

/// A step and a cycle leave a well-formed machine well formed.
pub proof fn law_cycle_keeps_wf(m: Machine, random: u8)
    requires
        m.can_step(),
    ensures
        m.step(random) matches Ok(next) ==> next.wf(),
        m.cycle(random) matches Ok(next) ==> next.wf(),
{
    law_execute_keeps_wf(m.fetched(), random);
}

/// No instruction writes the keypad: it is the host's.
pub proof fn law_keypad_is_read_only(m: Machine, random: u8)
    requires
        m.can_step(),
    ensures
        m.step(random) matches Ok(next) ==> next.keypad == m.keypad,
        m.cycle(random) matches Ok(next) ==> next.keypad == m.keypad,
{
}

/// A word that encodes no instruction only moves the program counter past
/// itself: but for `pc` and `opcode` the machine stays as it was.
pub proof fn law_unknown_word_is_skipped(m: Machine, random: u8)
    requires
        m.can_step(),
        opcode_of(m.next_word()) == Opcode::Nop,
    ensures
        m.step(random) == Ok::<Machine, Chip8Error>(
            Machine { pc: (m.pc + 2) as u16, opcode: m.next_word(), ..m },
        ),
{
}

/// `ADD Vx, Vy` leaves in `VF` 1 if the sum of the two registers exceeds
/// 255 and 0 if not; and, unless `Vx` is `VF` itself, it leaves in `Vx` the
/// sum modulo 256.
pub proof fn law_add_carries(m: Machine, x: int, y: int)
    requires
        m.wf(),
        0 <= x < 16,
        0 <= y < 16,
    ensures
        m.add_reg(x, y).reg(0xF) == 1 <==> m.reg(x) + m.reg(y) > 255,
        m.add_reg(x, y).reg(0xF) == 0 <==> m.reg(x) + m.reg(y) <= 255,
        x != 0xF ==> m.add_reg(x, y).reg(x) == (m.reg(x) + m.reg(y)) % 256,
{
}

/// `SUB Vx, Vy`, where `Vx` is not `VF` itself, leaves in `VF` 1 if
/// `Vx > Vy` and 0 if not, and in `Vx` the difference modulo 256.
pub proof fn law_sub_borrows(m: Machine, x: int, y: int)
    requires
        m.wf(),
        0 <= x < 15,
        0 <= y < 16,
    ensures
        m.sub_reg(x, y).reg(0xF) == 1 <==> m.reg(x) > m.reg(y),
        m.sub_reg(x, y).reg(0xF) == 0 <==> m.reg(x) <= m.reg(y),
        m.sub_reg(x, y).reg(x) == (m.reg(x) - m.reg(y)) % 256,
{
}

/// `SUBN Vx, Vy`, where `Vx` is not `VF` itself, leaves in `VF` 1 if
/// `Vy > Vx` and 0 if not, and in `Vx` the difference `Vy - Vx` modulo 256.
pub proof fn law_subn_borrows(m: Machine, x: int, y: int)
    requires
        m.wf(),
        0 <= x < 15,
        0 <= y < 16,
    ensures
        m.subn_reg(x, y).reg(0xF) == 1 <==> m.reg(y) > m.reg(x),
        m.subn_reg(x, y).reg(0xF) == 0 <==> m.reg(y) <= m.reg(x),
        m.subn_reg(x, y).reg(x) == (m.reg(y) - m.reg(x)) % 256,
{
}

/// The shifts in arithmetic: `SHR Vx` halves `Vx` and leaves the remainder
/// in `VF`; `SHL Vx` doubles `Vx` modulo 256 and leaves the carry in `VF`
/// (for a register other than `VF`).
pub proof fn law_shifts(m: Machine, x: int)
    requires
        m.wf(),
        0 <= x < 15,
    ensures
        m.shr(x).reg(x) == m.reg(x) / 2,
        m.shr(x).reg(0xF) == m.reg(x) % 2,
        m.shl(x).reg(x) == (2 * m.reg(x)) % 256,
        m.shl(x).reg(0xF) == m.reg(x) / 128,
{
    let v = m.reg(x);
    assert(v >> 1u8 == v / 2) by (bit_vector);
    assert(v & 1 == v % 2) by (bit_vector);
    assert(v << 1u8 == (2 * v) % 256) by (bit_vector);
    assert((v & 0x80) >> 7u8 == v / 128) by (bit_vector);
}

/// After `CLS` every pixel is off, whatever the display held.
pub proof fn law_cls_blanks(m: Machine, i: int)
    requires
        0 <= i < 2048,
    ensures
        !m.cls().video[i],
{
}

/// Drawing a sprite twice at one place restores the framebuffer.
pub proof fn law_blit_twice(video: Seq<bool>, sprite: Seq<u8>, x0: int, y0: int)
    requires
        video.len() == 2048,
    ensures
        blit(blit(video, sprite, x0, y0), sprite, x0, y0) == video,
{
}

/// `DRW Vx, Vy, 1` of the row `0xFF`, where the eight pixels from column
/// `Vx mod 64` on in row `Vy mod 32` are off: those of the eight that lie on
/// the screen are turned on, no other pixel changes, and `VF` is 0. The
/// same instruction once more turns them off again, so that the display is
/// as at first, and sets `VF` to 1. (Neither register is `VF`, which the
/// instruction writes.)
pub proof fn law_draw_solid_row(m: Machine, x: int, y: int)
    requires
        m.wf(),
        0 <= x < 15,
        0 <= y < 15,
        m.index < 4096,
        m.memory[m.index as int] == 0xFF,
        forall|px: int|
            m.column(x) <= px < m.column(x) + 8 && px < 64 ==> !#[trigger] pixel(
                m.video,
                px,
                m.row(y),
            ),
    ensures
        m.drw(x, y, 1).reg(0xF) == 0,
        forall|px: int, py: int|
            0 <= px < 64 && 0 <= py < 32 ==> #[trigger] pixel(m.drw(x, y, 1).video, px, py) == (
            pixel(m.video, px, py) || (py == m.row(y) && m.column(x) <= px < m.column(x) + 8)),
        m.drw(x, y, 1).drw(x, y, 1).video == m.video,
        m.drw(x, y, 1).drw(x, y, 1).reg(0xF) == 1,
{
    let x0 = m.column(x);
    let y0 = m.row(y);
    let sprite = m.sprite(1);
    let once = m.drw(x, y, 1);
    assert forall|col: u8| col < 8 implies #[trigger] sprite_bit(0xFF, col) by {
        assert(col < 8 ==> 0xFFu8 & (0x80u8 >> col) != 0) by (bit_vector);
    }
    assert forall|px: int, py: int| 0 <= px < 64 && 0 <= py < 32 implies #[trigger] pixel(
        once.video,
        px,
        py,
    ) == (pixel(m.video, px, py) || (py == y0 && x0 <= px < x0 + 8)) by {}
    assert(sprite_hits(once.video, sprite, x0, y0, x0, y0));
}

/// `CALL nnn` followed by `RET` leaves the program counter where it was
/// before the call, that is at the instruction after the `CALL`, and the
/// stack pointer at its value before the call.
pub proof fn law_call_then_ret(m: Machine, nnn: u16)
    requires
        m.wf(),
        m.sp < 16,
    ensures
        m.call(nnn) is Ok,
        m.call(nnn).unwrap().ret() is Ok,
        m.call(nnn).unwrap().ret().unwrap().pc == m.pc,
        m.call(nnn).unwrap().ret().unwrap().sp == m.sp,
{
}

/// A step that executes a `CALL` to an address that holds a `RET`, and the
/// step after it, leave the program counter two bytes past the `CALL` and
/// the stack pointer unchanged.
pub proof fn law_call_then_ret_steps(m: Machine, first: u8, second: u8)
    requires
        m.can_step(),
        m.sp < 16,
        opcode_of(m.next_word()) == Opcode::Call,
        0x200 <= nnn_of(m.next_word()) < 4095,
        opcode_of(
            word_of(
                m.memory[nnn_of(m.next_word()) as int],
                m.memory[nnn_of(m.next_word()) + 1],
            ),
        ) == Opcode::Ret,
    ensures
        m.step(first) is Ok,
        m.step(first).unwrap().can_step(),
        m.step(first).unwrap().step(second) is Ok,
        m.step(first).unwrap().step(second).unwrap().pc == m.pc + 2,
        m.step(first).unwrap().step(second).unwrap().sp == m.sp,
{
}

/// `LD [I], Vx` and then `LD Vx, [I]` into any registers give back the
/// registers `V0` to `Vx` that were stored.
pub proof fn law_store_then_load(m: Machine, x: int, fresh: Seq<u8>, i: int)
    requires
        m.wf(),
        0 <= x < 16,
        m.index + x < 4096,
        fresh.len() == 16,
        0 <= i <= x,
    ensures
        (Machine { registers: fresh, ..m.store_regs(x) }).load_regs(x).reg(i) == m.reg(i),
        m.store_regs(x).load_regs(x).registers == m.registers,
{
}

/// `LD [I], Vx` stores exactly `x + 1` bytes: memory outside
/// `I ..= I + x` keeps its contents.
pub proof fn law_store_frame(m: Machine, x: int, a: int)
    requires
        m.wf(),
        0 <= x < 16,
        0 <= a < 4096,
    ensures
        m.index <= a <= m.index + x ==> m.store_regs(x).memory[a] == m.reg(a - m.index),
        !(m.index <= a <= m.index + x) ==> m.store_regs(x).memory[a] == m.memory[a],
{
}

/// While no key is held, a cycle at `LD Vx, K` leaves the program counter
/// at that instruction, and the machine ready to execute it again. Only the
/// timers and `opcode` change.
pub proof fn law_key_wait_blocks(m: Machine, random: u8)
    requires
        m.can_step(),
        opcode_of(m.next_word()) == Opcode::LdVxK,
        !any_held(m.keypad),
    ensures
        m.cycle(random) == Ok::<Machine, Chip8Error>(
            Machine { opcode: m.next_word(), ..m }.tick(),
        ),
        m.cycle(random).unwrap().pc == m.pc,
        m.cycle(random).unwrap().can_step(),
        m.cycle(random).unwrap().next_word() == m.next_word(),
{
}

/// While no key is held, two cycles at `LD Vx, K` in a row leave the
/// program counter at that instruction.
pub proof fn law_key_wait_blocks_twice(m: Machine, first: u8, second: u8)
    requires
        m.can_step(),
        opcode_of(m.next_word()) == Opcode::LdVxK,
        !any_held(m.keypad),
    ensures
        m.cycle(first) is Ok,
        m.cycle(first).unwrap().cycle(second) is Ok,
        m.cycle(first).unwrap().cycle(second).unwrap().pc == m.pc,
{
    law_key_wait_blocks(m, first);
    let once = m.cycle(first).unwrap();
    law_key_wait_blocks(once, second);
}

/// With a key held, a cycle at `LD Vx, K` stores in `Vx` the number of the
/// lowest key that is held, and moves the program counter past the
/// instruction.
pub proof fn law_key_wait_resumes(m: Machine, random: u8, key: int)
    requires
        m.can_step(),
        opcode_of(m.next_word()) == Opcode::LdVxK,
        is_lowest_held(m.keypad, key),
    ensures
        m.cycle(random) is Ok,
        m.cycle(random).unwrap().reg(m.fetched().x()) == key,
        m.cycle(random).unwrap().pc == m.pc + 2,
{
    lemma_fields_are_digits(m.next_word());
}

/// The program `CLS; JP 0x200` at `0x200` is these four bytes.
pub open spec fn holds_clear_loop(m: Machine) -> bool {
    &&& m.memory[0x200] == 0x00
    &&& m.memory[0x201] == 0xE0
    &&& m.memory[0x202] == 0x12
    &&& m.memory[0x203] == 0x00
}

/// A machine about to execute the program `CLS; JP 0x200` runs for any
/// number of cycles without an error. After an even number of cycles its
/// program counter is at `0x200` again, after an odd number at `0x202`, and
/// from the first cycle on its display is blank.
pub proof fn law_clear_loop(m: Machine, randoms: Seq<u8>)
    requires
        m.wf(),
        m.pc == 0x200,
        holds_clear_loop(m),
    ensures
        m.run(randoms) is Ok,
        randoms.len() % 2 == 0 ==> m.run(randoms).unwrap().pc == 0x200,
        randoms.len() % 2 == 1 ==> m.run(randoms).unwrap().pc == 0x202,
        randoms.len() >= 1 ==> m.run(randoms).unwrap().video == blank(),
        m.run(randoms).unwrap().can_step(),
        m.run(randoms).unwrap().memory == m.memory,
    decreases randoms.len(),
{
    lemma_word_of(0x00, 0xE0);
    lemma_fields_are_digits(0x00E0);
    lemma_word_of(0x12, 0x00);
    lemma_fields_are_digits(0x1200);
    if randoms.len() > 0 {
        law_clear_loop(m, randoms.drop_last());
    }
}

} // verus!
