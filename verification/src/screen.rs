use vstd::prelude::*;

use crate::machine::add16;
use crate::machine::blank_screen;
use crate::machine::eq_await;
use crate::machine::eq_index;
use crate::machine::eq_mem;
use crate::machine::eq_regs;
use crate::machine::eq_stack;
use crate::machine::eq_timers;
use crate::machine::pix_on;
use crate::machine::screen_wf;
use crate::machine::wrap_add16;
use crate::machine::Chip8;
use crate::machine::Chip8Error;
use crate::machine::MEMORY_SIZE;
use crate::pixel::Pixel;

verus! {

/// Clear display: every framebuffer cell goes dark and the changed flag is
/// raised; nothing else moves.
pub open spec fn clear_rel(pre: Chip8, post: Chip8) -> bool {
    &&& screen_wf(post.vram@, pre.vram_scale as u32)
    &&& forall|y: int, x: int| 0 <= y < 32 && 0 <= x < 64 ==> !pix_on(post.vram@, y, x)
    &&& post.vram_scale == pre.vram_scale
    &&& post.vram_changed == true
    &&& post.program_counter == wrap_add16(pre.program_counter, 2)
    &&& eq_mem(pre, post)
    &&& eq_regs(pre, post)
    &&& eq_index(pre, post)
    &&& eq_stack(pre, post)
    &&& eq_timers(pre, post)
    &&& eq_await(pre, post)
}

/// The value 2^(7-j): the weight of sprite column `j`, most significant bit
/// first.
pub open spec fn column_weight(j: int) -> int {
    if j == 0 {
        128
    } else if j == 1 {
        64
    } else if j == 2 {
        32
    } else if j == 3 {
        16
    } else if j == 4 {
        8
    } else if j == 5 {
        4
    } else if j == 6 {
        2
    } else {
        1
    }
}

/// Whether sprite column `j` (leftmost first) of a sprite row byte is set.
pub open spec fn sprite_bit(row_byte: u8, j: int) -> bool {
    (row_byte as int / column_weight(j)) % 2 == 1
}

/// Whether the draw of an `n`-row sprite from memory address `index` at
/// screen position (`vx`, `vy`) toggles the framebuffer cell at row `y`,
/// column `x`. Coordinates wrap modulo the 64 x 32 grid on both axes.
pub open spec fn draw_bit(
    mem: Seq<u8>,
    index: int,
    vx: u8,
    vy: u8,
    n: u8,
    y: int,
    x: int,
) -> bool {
    let sy = (vy as int) % 32;
    let sx = (vx as int) % 64;
    let row_offset = (y + 32 - sy) % 32;
    let col_offset = (x + 64 - sx) % 64;
    row_offset < n && col_offset < 8 && sprite_bit(mem[index + row_offset], col_offset)
}

/// Whether a draw turns some lit cell off: the collision the flag register
/// reports.
pub open spec fn draw_collision(pre: Chip8, x: u8, y: u8, n: u8) -> bool {
    exists|cy: int, cx: int|
        0 <= cy < 32 && 0 <= cx < 64 && #[trigger] pix_on(pre.vram@, cy, cx) && draw_bit(
            pre.memory@,
            pre.index_register as int,
            pre.registers@[x as int],
            pre.registers@[y as int],
            n,
            cy,
            cx,
        )
}

/// Draw: the sprite is composited into the framebuffer by XOR, cell by cell;
/// VF reports whether any lit cell went dark; the changed flag is raised and
/// the program counter auto-advances. A sprite extending past the end of
/// memory is fatal and changes nothing.
pub open spec fn draw_rel(
    pre: Chip8,
    post: Chip8,
    x: u8,
    y: u8,
    n: u8,
    r: Result<(), Chip8Error>,
) -> bool {
    let idx = pre.index_register as int;
    if n > 0 && idx + n > MEMORY_SIZE {
        &&& r == Err::<(), Chip8Error>(Chip8Error::MemoryOutOfBounds)
        &&& post == pre
    } else {
        let vx = pre.registers@[x as int];
        let vy = pre.registers@[y as int];
        &&& r == Ok::<(), Chip8Error>(())
        &&& screen_wf(post.vram@, pre.vram_scale as u32)
        &&& post.vram_scale == pre.vram_scale
        &&& forall|cy: int, cx: int|
            0 <= cy < 32 && 0 <= cx < 64 ==> (#[trigger] pix_on(post.vram@, cy, cx) == (pix_on(
                pre.vram@,
                cy,
                cx,
            ) != draw_bit(pre.memory@, idx, vx, vy, n, cy, cx)))
        &&& post.vram_changed == true
        &&& post.registers@ == pre.registers@.update(
            15,
            if draw_collision(pre, x, y, n) {
                1u8
            } else {
                0u8
            },
        )
        &&& post.program_counter == wrap_add16(pre.program_counter, 2)
        &&& eq_mem(pre, post)
        &&& eq_index(pre, post)
        &&& eq_stack(pre, post)
        &&& eq_timers(pre, post)
        &&& eq_await(pre, post)
    }
}

/// Whether some cell already visited by the drawing pass (all rows before
/// `cy`, and row `cy` strictly left of `cx`) was lit and is toggled by the
/// sprite.
pub open spec fn collision_before(pre: Chip8, x: u8, y: u8, n: u8, cy: int, cx: int) -> bool {
    exists|ry: int, rx: int|
        0 <= ry < 32 && 0 <= rx < 64 && (ry < cy || (ry == cy && rx < cx)) && #[trigger] pix_on(
            pre.vram@,
            ry,
            rx,
        ) && draw_bit(
            pre.memory@,
            pre.index_register as int,
            pre.registers@[x as int],
            pre.registers@[y as int],
            n,
            ry,
            rx,
        )
}

/// Whether sprite column `j` of byte `row_byte` is set; executable twin of
/// `sprite_bit`.
fn bit_at(row_byte: u8, j: usize) -> (set: bool)
    requires
        j < 8,
    ensures
        set == sprite_bit(row_byte, j as int),
{
    if j == 0 {
        (row_byte / 128) % 2 == 1
    } else if j == 1 {
        (row_byte / 64) % 2 == 1
    } else if j == 2 {
        (row_byte / 32) % 2 == 1
    } else if j == 3 {
        (row_byte / 16) % 2 == 1
    } else if j == 4 {
        (row_byte / 8) % 2 == 1
    } else if j == 5 {
        (row_byte / 4) % 2 == 1
    } else if j == 6 {
        (row_byte / 2) % 2 == 1
    } else {
        row_byte % 2 == 1
    }
}

impl Chip8 {
    pub(crate) fn op_clear(&mut self)
        requires
            old(self).wf(),
        ensures
            final(self).wf(),
            clear_rel(*old(self), *final(self)),
    {
        let scale = self.vram_scale as u32;
        self.vram = blank_screen(scale);
        self.vram_changed = true;
        self.program_counter = add16(self.program_counter, 2);
    }

    pub(crate) fn op_draw(&mut self, x: u8, y: u8, n: u8) -> (r: Result<(), Chip8Error>)
        requires
            old(self).wf(),
            x < 16,
            y < 16,
            n < 16,
        ensures
            final(self).wf(),
            draw_rel(*old(self), *final(self), x, y, n, r),
    {
        let idx = self.index_register as usize;
        if n > 0 && idx + n as usize > MEMORY_SIZE {
            return Err(Chip8Error::MemoryOutOfBounds);
        }
        let vx = self.registers[x as usize];
        let vy = self.registers[y as usize];
        let sy = sprite_start_row(vy);
        let sx = sprite_start_col(vx);
        let scale = self.vram_scale as u32;
        let ghost mem = self.memory@;
        let ghost pre = *self;

        let mut new_rows: Vec<Vec<Pixel>> = Vec::new();
        let mut collision = false;
        for cy in 0..32usize
            invariant
                *self == pre,
                pre == *old(self),
                old(self).wf(),
                x < 16,
                y < 16,
                n < 16,
                n > 0 ==> idx + n <= MEMORY_SIZE,
                idx == pre.index_register as usize,
                vx == pre.registers@[x as int],
                vy == pre.registers@[y as int],
                sy == (vy as int) % 32,
                sx == (vx as int) % 64,
                scale == pre.vram_scale as u32,
                mem == pre.memory@,
                new_rows@.len() == cy,
                forall|ry: int| 0 <= ry < cy ==> (#[trigger] new_rows@[ry])@.len() == 64,
                forall|ry: int, rx: int|
                    0 <= ry < cy && 0 <= rx < 64 ==> #[trigger] new_rows@[ry]@[rx] == (Pixel {
                        x: rx as u32,
                        y: ry as u32,
                        on: pix_on(pre.vram@, ry, rx) != draw_bit(
                            mem,
                            idx as int,
                            vx,
                            vy,
                            n,
                            ry,
                            rx,
                        ),
                        x_scale: scale,
                        y_scale: scale,
                    }),
                collision == collision_before(pre, x, y, n, cy as int, 0),
        {
            let mut row: Vec<Pixel> = Vec::new();
            for cx in 0..64usize
                invariant
                    *self == pre,
                    pre == *old(self),
                    old(self).wf(),
                    x < 16,
                    y < 16,
                    n < 16,
                    cy < 32,
                    n > 0 ==> idx + n <= MEMORY_SIZE,
                    idx == pre.index_register as usize,
                    vx == pre.registers@[x as int],
                    vy == pre.registers@[y as int],
                    sy == (vy as int) % 32,
                    sx == (vx as int) % 64,
                    scale == pre.vram_scale as u32,
                    mem == pre.memory@,
                    row@.len() == cx,
                    forall|rx: int|
                        0 <= rx < cx ==> #[trigger] row@[rx] == (Pixel {
                            x: rx as u32,
                            y: cy as u32,
                            on: pix_on(pre.vram@, cy as int, rx) != draw_bit(
                                mem,
                                idx as int,
                                vx,
                                vy,
                                n,
                                cy as int,
                                rx,
                            ),
                            x_scale: scale,
                            y_scale: scale,
                        }),
                    collision == collision_before(pre, x, y, n, cy as int, cx as int),
            {
                let row_offset = (cy + 32 - sy) % 32;
                let col_offset = (cx + 64 - sx) % 64;
                let bit = if row_offset < n as usize && col_offset < 8 {
                    bit_at(self.memory[idx + row_offset], col_offset)
                } else {
                    false
                };
                proof {
                    assert(bit == draw_bit(mem, idx as int, vx, vy, n, cy as int, cx as int));
                }
                let old_on = self.vram[cy][cx].on;
                let ghost collision_was = collision;
                if old_on && bit {
                    collision = true;
                }
                proof {
                    if old_on && bit {
                        assert(collision_before(pre, x, y, n, cy as int, cx as int + 1)) by {
                            assert(0 <= cy < 32 && 0 <= cx < 64 && pix_on(
                                pre.vram@,
                                cy as int,
                                cx as int,
                            ) && draw_bit(
                                pre.memory@,
                                pre.index_register as int,
                                pre.registers@[x as int],
                                pre.registers@[y as int],
                                n,
                                cy as int,
                                cx as int,
                            ));
                        }
                    } else {
                        assert(collision == collision_before(pre, x, y, n, cy as int, cx as int + 1))
                            by {
                            if collision_before(pre, x, y, n, cy as int, cx as int + 1) {
                                let (ry, rx) = choose|ry: int, rx: int|
                                    0 <= ry < 32 && 0 <= rx < 64 && (ry < cy as int || (ry
                                        == cy as int && rx < cx as int + 1)) && #[trigger] pix_on(
                                        pre.vram@,
                                        ry,
                                        rx,
                                    ) && draw_bit(
                                        pre.memory@,
                                        pre.index_register as int,
                                        pre.registers@[x as int],
                                        pre.registers@[y as int],
                                        n,
                                        ry,
                                        rx,
                                    );
                                assert(ry < cy as int || (ry == cy as int && rx < cx as int));
                                assert(collision_before(pre, x, y, n, cy as int, cx as int));
                            }
                        }
                    }
                }
                let new_on = old_on != bit;
                row.push(Pixel::new(cx as u32, cy as u32, new_on, scale, scale));
            }
            proof {
                assert(collision_before(pre, x, y, n, cy as int, 64) == collision_before(
                    pre,
                    x,
                    y,
                    n,
                    cy as int + 1,
                    0,
                )) by {
                    if collision_before(pre, x, y, n, cy as int, 64) {
                        let (ry, rx) = choose|ry: int, rx: int|
                            0 <= ry < 32 && 0 <= rx < 64 && (ry < cy as int || (ry == cy as int
                                && rx < 64)) && #[trigger] pix_on(pre.vram@, ry, rx) && draw_bit(
                                pre.memory@,
                                pre.index_register as int,
                                pre.registers@[x as int],
                                pre.registers@[y as int],
                                n,
                                ry,
                                rx,
                            );
                        assert(ry < cy as int + 1);
                        assert(collision_before(pre, x, y, n, cy as int + 1, 0));
                    }
                    if collision_before(pre, x, y, n, cy as int + 1, 0) {
                        let (ry, rx) = choose|ry: int, rx: int|
                            0 <= ry < 32 && 0 <= rx < 64 && (ry < cy as int + 1 || (ry == cy as int
                                + 1 && rx < 0)) && #[trigger] pix_on(pre.vram@, ry, rx)
                                && draw_bit(
                                pre.memory@,
                                pre.index_register as int,
                                pre.registers@[x as int],
                                pre.registers@[y as int],
                                n,
                                ry,
                                rx,
                            );
                        assert(ry < cy as int || (ry == cy as int && rx < 64));
                        assert(collision_before(pre, x, y, n, cy as int, 64));
                    }
                }
            }
            new_rows.push(row);
        }
        proof {
            assert(collision == draw_collision(pre, x, y, n)) by {
                if collision_before(pre, x, y, n, 32, 0) {
                    let (ry, rx) = choose|ry: int, rx: int|
                        0 <= ry < 32 && 0 <= rx < 64 && (ry < 32 || (ry == 32 && rx < 0))
                            && #[trigger] pix_on(pre.vram@, ry, rx) && draw_bit(
                            pre.memory@,
                            pre.index_register as int,
                            pre.registers@[x as int],
                            pre.registers@[y as int],
                            n,
                            ry,
                            rx,
                        );
                    assert(draw_collision(pre, x, y, n));
                }
                if draw_collision(pre, x, y, n) {
                    let (ry, rx) = choose|ry: int, rx: int|
                        0 <= ry < 32 && 0 <= rx < 64 && #[trigger] pix_on(pre.vram@, ry, rx)
                            && draw_bit(
                            pre.memory@,
                            pre.index_register as int,
                            pre.registers@[x as int],
                            pre.registers@[y as int],
                            n,
                            ry,
                            rx,
                        );
                    assert(collision_before(pre, x, y, n, 32, 0));
                }
            }
        }
        self.vram = new_rows;
        self.vram_changed = true;
        let flag: u8 = if collision {
            1
        } else {
            0
        };
        self.registers[15] = flag;
        self.program_counter = add16(self.program_counter, 2);
        Ok(())
    }
}

/// The sprite's top row on the wrapped grid.
fn sprite_start_row(vy: u8) -> (sy: usize)
    ensures
        sy == (vy as int) % 32,
{
    (vy as usize) % 32
}

/// The sprite's leftmost column on the wrapped grid.
fn sprite_start_col(vx: u8) -> (sx: usize)
    ensures
        sx == (vx as int) % 64,
{
    (vx as usize) % 64
}

} // verus!
