use vstd::prelude::*;

use crate::machine::add16;
use crate::machine::eq_await;
use crate::machine::eq_index;
use crate::machine::eq_mem;
use crate::machine::eq_screen;
use crate::machine::eq_stack;
use crate::machine::eq_timers;
use crate::machine::wrap_add16;
use crate::machine::Chip8;

verus! {

/// Everything except the register file and the program counter is untouched.
pub open spec fn alu_frame(pre: Chip8, post: Chip8) -> bool {
    &&& eq_mem(pre, post)
    &&& eq_index(pre, post)
    &&& eq_stack(pre, post)
    &&& eq_timers(pre, post)
    &&& eq_screen(pre, post)
    &&& eq_await(pre, post)
}

/// Load immediate: Vx becomes `nn`.
pub open spec fn load_imm_rel(pre: Chip8, post: Chip8, x: u8, nn: u8) -> bool {
    &&& post.registers@ == pre.registers@.update(x as int, nn)
    &&& post.program_counter == wrap_add16(pre.program_counter, 2)
    &&& alu_frame(pre, post)
}

/// Add immediate: Vx becomes (Vx + nn) mod 256; no flag is written.
pub open spec fn add_imm_rel(pre: Chip8, post: Chip8, x: u8, nn: u8) -> bool {
    let stored = ((pre.registers@[x as int] + nn) % 256) as u8;
    &&& post.registers@ == pre.registers@.update(x as int, stored)
    &&& post.program_counter == wrap_add16(pre.program_counter, 2)
    &&& alu_frame(pre, post)
}

/// Assign: Vx becomes Vy.
pub open spec fn assign_rel(pre: Chip8, post: Chip8, x: u8, y: u8) -> bool {
    &&& post.registers@ == pre.registers@.update(x as int, pre.registers@[y as int])
    &&& post.program_counter == wrap_add16(pre.program_counter, 2)
    &&& alu_frame(pre, post)
}

/// Bitwise or: Vx becomes Vx | Vy.
pub open spec fn or_rel(pre: Chip8, post: Chip8, x: u8, y: u8) -> bool {
    let stored = pre.registers@[x as int] | pre.registers@[y as int];
    &&& post.registers@ == pre.registers@.update(x as int, stored)
    &&& post.program_counter == wrap_add16(pre.program_counter, 2)
    &&& alu_frame(pre, post)
}

/// Bitwise and: Vx becomes Vx & Vy.
pub open spec fn and_rel(pre: Chip8, post: Chip8, x: u8, y: u8) -> bool {
    let stored = pre.registers@[x as int] & pre.registers@[y as int];
    &&& post.registers@ == pre.registers@.update(x as int, stored)
    &&& post.program_counter == wrap_add16(pre.program_counter, 2)
    &&& alu_frame(pre, post)
}

/// Bitwise exclusive or: Vx becomes Vx ^ Vy.
pub open spec fn xor_rel(pre: Chip8, post: Chip8, x: u8, y: u8) -> bool {
    let stored = pre.registers@[x as int] ^ pre.registers@[y as int];
    &&& post.registers@ == pre.registers@.update(x as int, stored)
    &&& post.program_counter == wrap_add16(pre.program_counter, 2)
    &&& alu_frame(pre, post)
}

/// Add with carry: Vx becomes (Vx + Vy) mod 256, and VF becomes 1 exactly
/// when the unsigned sum exceeds 255, else 0. The flag is written after the
/// result, so it wins when VF is also the destination.
pub open spec fn add_carry_rel(pre: Chip8, post: Chip8, x: u8, y: u8) -> bool {
    let a = pre.registers@[x as int] as int;
    let b = pre.registers@[y as int] as int;
    let stored = ((a + b) % 256) as u8;
    let flag: u8 = if a + b > 255 {
        1
    } else {
        0
    };
    &&& post.registers@ == pre.registers@.update(x as int, stored).update(15, flag)
    &&& post.program_counter == wrap_add16(pre.program_counter, 2)
    &&& alu_frame(pre, post)
}

/// Subtract with borrow: Vx becomes (Vx - Vy) mod 256, and VF becomes 1
/// exactly when Vx >= Vy before the operation (no borrow), else 0.
pub open spec fn sub_borrow_rel(pre: Chip8, post: Chip8, x: u8, y: u8) -> bool {
    let a = pre.registers@[x as int] as int;
    let b = pre.registers@[y as int] as int;
    let stored = ((a - b) % 256) as u8;
    let flag: u8 = if a >= b {
        1
    } else {
        0
    };
    &&& post.registers@ == pre.registers@.update(x as int, stored).update(15, flag)
    &&& post.program_counter == wrap_add16(pre.program_counter, 2)
    &&& alu_frame(pre, post)
}

/// Reverse subtract with borrow: Vx becomes (Vy - Vx) mod 256, and VF becomes
/// 1 exactly when Vy >= Vx, else 0.
pub open spec fn sub_reverse_rel(pre: Chip8, post: Chip8, x: u8, y: u8) -> bool {
    let a = pre.registers@[x as int] as int;
    let b = pre.registers@[y as int] as int;
    let stored = ((b - a) % 256) as u8;
    let flag: u8 = if b >= a {
        1
    } else {
        0
    };
    &&& post.registers@ == pre.registers@.update(x as int, stored).update(15, flag)
    &&& post.program_counter == wrap_add16(pre.program_counter, 2)
    &&& alu_frame(pre, post)
}

/// Shift right: VF becomes the least significant bit of Vx captured before
/// the shift, and Vx is halved.
pub open spec fn shift_right_rel(pre: Chip8, post: Chip8, x: u8) -> bool {
    let a = pre.registers@[x as int] as int;
    let stored = (a / 2) as u8;
    let flag = (a % 2) as u8;
    &&& post.registers@ == pre.registers@.update(x as int, stored).update(15, flag)
    &&& post.program_counter == wrap_add16(pre.program_counter, 2)
    &&& alu_frame(pre, post)
}

/// Shift left: VF becomes the most significant bit of Vx captured before the
/// shift, and Vx is doubled modulo 256.
pub open spec fn shift_left_rel(pre: Chip8, post: Chip8, x: u8) -> bool {
    let a = pre.registers@[x as int] as int;
    let stored = ((a * 2) % 256) as u8;
    let flag = (a / 128) as u8;
    &&& post.registers@ == pre.registers@.update(x as int, stored).update(15, flag)
    &&& post.program_counter == wrap_add16(pre.program_counter, 2)
    &&& alu_frame(pre, post)
}

impl Chip8 {
    pub(crate) fn op_load_imm(&mut self, x: u8, nn: u8)
        requires
            old(self).wf(),
            x < 16,
        ensures
            final(self).wf(),
            load_imm_rel(*old(self), *final(self), x, nn),
    {
        self.registers[x as usize] = nn;
        self.program_counter = add16(self.program_counter, 2);
    }

    pub(crate) fn op_add_imm(&mut self, x: u8, nn: u8)
        requires
            old(self).wf(),
            x < 16,
        ensures
            final(self).wf(),
            add_imm_rel(*old(self), *final(self), x, nn),
    {
        let sum: u16 = self.registers[x as usize] as u16 + nn as u16;
        self.registers[x as usize] = (sum % 256) as u8;
        self.program_counter = add16(self.program_counter, 2);
    }

    pub(crate) fn op_assign(&mut self, x: u8, y: u8)
        requires
            old(self).wf(),
            x < 16,
            y < 16,
        ensures
            final(self).wf(),
            assign_rel(*old(self), *final(self), x, y),
    {
        self.registers[x as usize] = self.registers[y as usize];
        self.program_counter = add16(self.program_counter, 2);
    }

    pub(crate) fn op_or(&mut self, x: u8, y: u8)
        requires
            old(self).wf(),
            x < 16,
            y < 16,
        ensures
            final(self).wf(),
            or_rel(*old(self), *final(self), x, y),
    {
        self.registers[x as usize] = self.registers[x as usize] | self.registers[y as usize];
        self.program_counter = add16(self.program_counter, 2);
    }

    pub(crate) fn op_and(&mut self, x: u8, y: u8)
        requires
            old(self).wf(),
            x < 16,
            y < 16,
        ensures
            final(self).wf(),
            and_rel(*old(self), *final(self), x, y),
    {
        self.registers[x as usize] = self.registers[x as usize] & self.registers[y as usize];
        self.program_counter = add16(self.program_counter, 2);
    }

    pub(crate) fn op_xor(&mut self, x: u8, y: u8)
        requires
            old(self).wf(),
            x < 16,
            y < 16,
        ensures
            final(self).wf(),
            xor_rel(*old(self), *final(self), x, y),
    {
        self.registers[x as usize] = self.registers[x as usize] ^ self.registers[y as usize];
        self.program_counter = add16(self.program_counter, 2);
    }

    pub(crate) fn op_add_carry(&mut self, x: u8, y: u8)
        requires
            old(self).wf(),
            x < 16,
            y < 16,
        ensures
            final(self).wf(),
            add_carry_rel(*old(self), *final(self), x, y),
    {
        let a = self.registers[x as usize];
        let b = self.registers[y as usize];
        let sum: u16 = a as u16 + b as u16;
        let stored = (sum % 256) as u8;
        let flag: u8 = if sum > 255 {
            1
        } else {
            0
        };
        self.registers[x as usize] = stored;
        self.registers[15] = flag;
        self.program_counter = add16(self.program_counter, 2);
    }

    pub(crate) fn op_sub_borrow(&mut self, x: u8, y: u8)
        requires
            old(self).wf(),
            x < 16,
            y < 16,
        ensures
            final(self).wf(),
            sub_borrow_rel(*old(self), *final(self), x, y),
    {
        let a = self.registers[x as usize];
        let b = self.registers[y as usize];
        let stored: u8 = if a >= b {
            a - b
        } else {
            proof {
                assert((a - b) % 256 == a - b + 256);
            }
            (256u16 - (b - a) as u16) as u8
        };
        let flag: u8 = if a >= b {
            1
        } else {
            0
        };
        self.registers[x as usize] = stored;
        self.registers[15] = flag;
        self.program_counter = add16(self.program_counter, 2);
    }

    pub(crate) fn op_sub_reverse(&mut self, x: u8, y: u8)
        requires
            old(self).wf(),
            x < 16,
            y < 16,
        ensures
            final(self).wf(),
            sub_reverse_rel(*old(self), *final(self), x, y),
    {
        let a = self.registers[x as usize];
        let b = self.registers[y as usize];
        let stored: u8 = if b >= a {
            b - a
        } else {
            proof {
                assert((b - a) % 256 == b - a + 256);
            }
            (256u16 - (a - b) as u16) as u8
        };
        let flag: u8 = if b >= a {
            1
        } else {
            0
        };
        self.registers[x as usize] = stored;
        self.registers[15] = flag;
        self.program_counter = add16(self.program_counter, 2);
    }

    pub(crate) fn op_shift_right(&mut self, x: u8)
        requires
            old(self).wf(),
            x < 16,
        ensures
            final(self).wf(),
            shift_right_rel(*old(self), *final(self), x),
    {
        let a = self.registers[x as usize];
        let flag = a % 2;
        self.registers[x as usize] = a / 2;
        self.registers[15] = flag;
        self.program_counter = add16(self.program_counter, 2);
    }

    pub(crate) fn op_shift_left(&mut self, x: u8)
        requires
            old(self).wf(),
            x < 16,
        ensures
            final(self).wf(),
            shift_left_rel(*old(self), *final(self), x),
    {
        let a = self.registers[x as usize];
        let flag = a / 128;
        let doubled: u16 = a as u16 * 2;
        self.registers[x as usize] = (doubled % 256) as u8;
        self.registers[15] = flag;
        self.program_counter = add16(self.program_counter, 2);
    }
}

} // verus!
