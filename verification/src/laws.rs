use vstd::prelude::*;

use crate::alu::add_carry_rel;
use crate::alu::shift_left_rel;
use crate::alu::shift_right_rel;
use crate::alu::sub_borrow_rel;
use crate::flow::skip_rel;
use crate::machine::pix_on;
use crate::machine::Chip8;
use crate::machine::Chip8Error;
use crate::screen::draw_bit;
use crate::screen::draw_collision;
use crate::screen::draw_rel;
use crate::transfer::dump_regs_rel;
use crate::transfer::load_regs_rel;

verus! {

/// Add with carry: for any 8-bit operands, VF is 1 exactly when their sum
/// exceeds 255, and the stored result is the sum modulo 256. Stated for a
/// destination other than VF itself, which the flag write would overwrite.
pub proof fn lemma_add_carry_flag(pre: Chip8, post: Chip8, x: u8, y: u8)
    requires
        pre.wf(),
        x < 16,
        y < 16,
        x != 15,
        add_carry_rel(pre, post, x, y),
    ensures
        post.registers@[15] == 1 <==> pre.registers@[x as int] + pre.registers@[y as int] > 255,
        post.registers@[15] == 0 <==> pre.registers@[x as int] + pre.registers@[y as int] <= 255,
        post.registers@[x as int] == (pre.registers@[x as int] + pre.registers@[y as int]) % 256,
{
}

/// Subtract with borrow: for any 8-bit operands, VF is 1 exactly when the
/// minuend is at least the subtrahend, and the stored result is their
/// difference modulo 256. Stated for a destination other than VF itself.
pub proof fn lemma_sub_borrow_flag(pre: Chip8, post: Chip8, x: u8, y: u8)
    requires
        pre.wf(),
        x < 16,
        y < 16,
        x != 15,
        sub_borrow_rel(pre, post, x, y),
    ensures
        post.registers@[15] == 1 <==> pre.registers@[x as int] >= pre.registers@[y as int],
        post.registers@[15] == 0 <==> pre.registers@[x as int] < pre.registers@[y as int],
        post.registers@[x as int] == (pre.registers@[x as int] - pre.registers@[y as int]) % 256,
{
}

/// Shift right: whatever the shifted value, VF equals the least significant
/// bit of Vx as it was before the shift.
pub proof fn lemma_shift_right_flag(pre: Chip8, post: Chip8, x: u8)
    requires
        pre.wf(),
        x < 16,
        shift_right_rel(pre, post, x),
    ensures
        post.registers@[15] == pre.registers@[x as int] % 2,
{
}

/// Shift left: whatever the shifted value, VF equals the most significant
/// bit of Vx as it was before the shift.
pub proof fn lemma_shift_left_flag(pre: Chip8, post: Chip8, x: u8)
    requires
        pre.wf(),
        x < 16,
        shift_left_rel(pre, post, x),
    ensures
        post.registers@[15] == pre.registers@[x as int] / 128,
{
}

/// Skip opcodes move the program counter by exactly 4 when they skip and by
/// exactly 2 when they do not, relative to its value before the step. Stated
/// away from the very top of the 16-bit range, where the counter wraps.
pub proof fn lemma_skip_steps_pc(pre: Chip8, post: Chip8, condition: bool)
    requires
        skip_rel(pre, post, condition),
        condition ==> pre.program_counter + 4 <= 0xFFFF,
        !condition ==> pre.program_counter + 2 <= 0xFFFF,
    ensures
        condition ==> post.program_counter == pre.program_counter + 4,
        !condition ==> post.program_counter == pre.program_counter + 2,
{
}

/// Two consecutive identical draws cancel: compositing a sprite by XOR twice
/// at the same coordinates restores every framebuffer cell. Stated for
/// operand registers other than VF, whose value the first draw replaces with
/// the collision flag.
pub proof fn lemma_draw_twice_restores(pre: Chip8, mid: Chip8, post: Chip8, x: u8, y: u8, n: u8)
    requires
        pre.wf(),
        x < 16,
        y < 16,
        n < 16,
        x != 15,
        y != 15,
        draw_rel(pre, mid, x, y, n, Ok::<(), Chip8Error>(())),
        draw_rel(mid, post, x, y, n, Ok::<(), Chip8Error>(())),
    ensures
        forall|cy: int, cx: int|
            0 <= cy < 32 && 0 <= cx < 64 ==> #[trigger] pix_on(post.vram@, cy, cx) == pix_on(
                pre.vram@,
                cy,
                cx,
            ),
{
    assert(mid.registers@[x as int] == pre.registers@[x as int]);
    assert(mid.registers@[y as int] == pre.registers@[y as int]);
    assert(mid.memory@ == pre.memory@);
}

/// When a draw toggles no cell at all, the immediately repeated draw reports
/// no collision: VF is 0 after the second draw. (This is the collision half
/// of the two-identical-draws property, stated on the inputs where it holds:
/// a draw that lights previously-off cells turns exactly those cells off
/// again on the second pass, which the collision flag must report as 1.)
pub proof fn lemma_draw_twice_collision_free(
    pre: Chip8,
    mid: Chip8,
    post: Chip8,
    x: u8,
    y: u8,
    n: u8,
)
    requires
        pre.wf(),
        x < 16,
        y < 16,
        n < 16,
        x != 15,
        y != 15,
        draw_rel(pre, mid, x, y, n, Ok::<(), Chip8Error>(())),
        draw_rel(mid, post, x, y, n, Ok::<(), Chip8Error>(())),
        forall|cy: int, cx: int|
            0 <= cy < 32 && 0 <= cx < 64 && #[trigger] draw_bit(
                pre.memory@,
                pre.index_register as int,
                pre.registers@[x as int],
                pre.registers@[y as int],
                n,
                cy,
                cx,
            ) ==> !pix_on(pre.vram@, cy, cx),
        forall|cy: int, cx: int|
            0 <= cy < 32 && 0 <= cx < 64 ==> !#[trigger] draw_bit(
                pre.memory@,
                pre.index_register as int,
                pre.registers@[x as int],
                pre.registers@[y as int],
                n,
                cy,
                cx,
            ),
    ensures
        post.registers@[15] == 0,
{
    assert(mid.registers@[x as int] == pre.registers@[x as int]);
    assert(mid.registers@[y as int] == pre.registers@[y as int]);
    assert(mid.memory@ == pre.memory@);
    assert(!draw_collision(mid, x, y, n)) by {
        if draw_collision(mid, x, y, n) {
            let (cy, cx) = choose|cy: int, cx: int|
                0 <= cy < 32 && 0 <= cx < 64 && #[trigger] pix_on(mid.vram@, cy, cx) && draw_bit(
                    mid.memory@,
                    mid.index_register as int,
                    mid.registers@[x as int],
                    mid.registers@[y as int],
                    n,
                    cy,
                    cx,
                );
            assert(!draw_bit(
                pre.memory@,
                pre.index_register as int,
                pre.registers@[x as int],
                pre.registers@[y as int],
                n,
                cy,
                cx,
            ));
        }
    }
}

/// A register dump followed immediately by a register load from the same
/// index and the same register bound is an exact round trip: the registers
/// come back bit for bit, memory is exactly what the dump wrote, and the
/// dumped range of memory agrees with the registers.
pub proof fn lemma_dump_then_load_round_trip(pre: Chip8, mid: Chip8, post: Chip8, x: u8)
    requires
        pre.wf(),
        x < 16,
        dump_regs_rel(pre, mid, x, Ok::<(), Chip8Error>(())),
        load_regs_rel(mid, post, x, Ok::<(), Chip8Error>(())),
    ensures
        post.registers@ == pre.registers@,
        post.memory == mid.memory,
        forall|j: int|
            0 <= j <= x ==> #[trigger] post.registers@[j] == post.memory@[pre.index_register + j],
{
    assert(mid.index_register == pre.index_register);
    assert(post.registers@ =~= pre.registers@);
}

} // verus!
