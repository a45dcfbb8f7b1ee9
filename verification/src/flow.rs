use vstd::prelude::*;

use crate::machine::add16;
use crate::machine::eq_await;
use crate::machine::eq_index;
use crate::machine::eq_mem;
use crate::machine::eq_regs;
use crate::machine::eq_screen;
use crate::machine::eq_stack;
use crate::machine::eq_timers;
use crate::machine::wrap_add16;
use crate::machine::Chip8;
use crate::machine::Chip8Error;

verus! {

/// Everything except the program counter is untouched.
pub open spec fn pc_only_frame(pre: Chip8, post: Chip8) -> bool {
    &&& eq_mem(pre, post)
    &&& eq_regs(pre, post)
    &&& eq_index(pre, post)
    &&& eq_stack(pre, post)
    &&& eq_timers(pre, post)
    &&& eq_screen(pre, post)
    &&& eq_await(pre, post)
}

/// Jump: the program counter becomes `nnn`, with no auto-advance.
pub open spec fn jump_rel(pre: Chip8, post: Chip8, nnn: u16) -> bool {
    &&& post.program_counter == nnn
    &&& pc_only_frame(pre, post)
}

/// Call: the address of the call instruction is pushed, then control jumps
/// to `nnn`, with no auto-advance.
pub open spec fn call_rel(pre: Chip8, post: Chip8, nnn: u16) -> bool {
    &&& post.stack@ == pre.stack@.push(pre.program_counter)
    &&& post.program_counter == nnn
    &&& eq_mem(pre, post)
    &&& eq_regs(pre, post)
    &&& eq_index(pre, post)
    &&& eq_timers(pre, post)
    &&& eq_screen(pre, post)
    &&& eq_await(pre, post)
}

/// Return: the top of the call stack is popped and execution resumes two
/// bytes past it (just after the call instruction that pushed it). Popping
/// an empty stack is a fatal underflow and changes nothing.
pub open spec fn return_rel(pre: Chip8, post: Chip8, r: Result<(), Chip8Error>) -> bool {
    if pre.stack@.len() == 0 {
        &&& r == Err::<(), Chip8Error>(Chip8Error::StackUnderflow)
        &&& post == pre
    } else {
        &&& r == Ok::<(), Chip8Error>(())
        &&& post.stack@ == pre.stack@.drop_last()
        &&& post.program_counter == wrap_add16(pre.stack@.last(), 2)
        &&& eq_mem(pre, post)
        &&& eq_regs(pre, post)
        &&& eq_index(pre, post)
        &&& eq_timers(pre, post)
        &&& eq_screen(pre, post)
        &&& eq_await(pre, post)
    }
}

/// Jump with offset: the program counter becomes V0 + `nnn`.
pub open spec fn jump_offset_rel(pre: Chip8, post: Chip8, nnn: u16) -> bool {
    &&& post.program_counter == (pre.registers@[0] + nnn) as u16
    &&& pc_only_frame(pre, post)
}

/// A skip advances the program counter by 4 when the condition holds and by
/// the normal 2 when it does not.
pub open spec fn skip_rel(pre: Chip8, post: Chip8, condition: bool) -> bool {
    &&& post.program_counter == wrap_add16(
        pre.program_counter,
        if condition {
            4
        } else {
            2
        },
    )
    &&& pc_only_frame(pre, post)
}

/// Skip if Vx equals `nn`.
pub open spec fn skip_eq_imm_rel(pre: Chip8, post: Chip8, x: u8, nn: u8) -> bool {
    skip_rel(pre, post, pre.registers@[x as int] == nn)
}

/// Skip if Vx differs from `nn`.
pub open spec fn skip_ne_imm_rel(pre: Chip8, post: Chip8, x: u8, nn: u8) -> bool {
    skip_rel(pre, post, pre.registers@[x as int] != nn)
}

/// Skip if Vx equals Vy.
pub open spec fn skip_eq_reg_rel(pre: Chip8, post: Chip8, x: u8, y: u8) -> bool {
    skip_rel(pre, post, pre.registers@[x as int] == pre.registers@[y as int])
}

/// Skip if Vx differs from Vy.
pub open spec fn skip_ne_reg_rel(pre: Chip8, post: Chip8, x: u8, y: u8) -> bool {
    skip_rel(pre, post, pre.registers@[x as int] != pre.registers@[y as int])
}

impl Chip8 {
    pub(crate) fn op_jump(&mut self, nnn: u16)
        requires
            old(self).wf(),
        ensures
            final(self).wf(),
            jump_rel(*old(self), *final(self), nnn),
    {
        self.program_counter = nnn;
    }

    pub(crate) fn op_call(&mut self, nnn: u16)
        requires
            old(self).wf(),
        ensures
            final(self).wf(),
            call_rel(*old(self), *final(self), nnn),
    {
        self.stack.push(self.program_counter);
        self.program_counter = nnn;
    }

    pub(crate) fn op_return(&mut self) -> (r: Result<(), Chip8Error>)
        requires
            old(self).wf(),
        ensures
            final(self).wf(),
            return_rel(*old(self), *final(self), r),
    {
        if self.stack.len() == 0 {
            return Err(Chip8Error::StackUnderflow);
        }
        if let Some(return_address) = self.stack.pop() {
            self.program_counter = add16(return_address, 2);
            Ok(())
        } else {
            Err(Chip8Error::StackUnderflow)
        }
    }

    pub(crate) fn op_jump_offset(&mut self, nnn: u16)
        requires
            old(self).wf(),
            nnn < 0x1000,
        ensures
            final(self).wf(),
            jump_offset_rel(*old(self), *final(self), nnn),
    {
        self.program_counter = self.registers[0] as u16 + nnn;
    }

    pub(crate) fn skip_by(&mut self, condition: bool)
        requires
            old(self).wf(),
        ensures
            final(self).wf(),
            skip_rel(*old(self), *final(self), condition),
    {
        let step: u16 = if condition {
            4
        } else {
            2
        };
        self.program_counter = add16(self.program_counter, step);
    }

    pub(crate) fn op_skip_eq_imm(&mut self, x: u8, nn: u8)
        requires
            old(self).wf(),
            x < 16,
        ensures
            final(self).wf(),
            skip_eq_imm_rel(*old(self), *final(self), x, nn),
    {
        let condition = self.registers[x as usize] == nn;
        self.skip_by(condition);
    }

    pub(crate) fn op_skip_ne_imm(&mut self, x: u8, nn: u8)
        requires
            old(self).wf(),
            x < 16,
        ensures
            final(self).wf(),
            skip_ne_imm_rel(*old(self), *final(self), x, nn),
    {
        let condition = self.registers[x as usize] != nn;
        self.skip_by(condition);
    }

    pub(crate) fn op_skip_eq_reg(&mut self, x: u8, y: u8)
        requires
            old(self).wf(),
            x < 16,
            y < 16,
        ensures
            final(self).wf(),
            skip_eq_reg_rel(*old(self), *final(self), x, y),
    {
        let condition = self.registers[x as usize] == self.registers[y as usize];
        self.skip_by(condition);
    }

    pub(crate) fn op_skip_ne_reg(&mut self, x: u8, y: u8)
        requires
            old(self).wf(),
            x < 16,
            y < 16,
        ensures
            final(self).wf(),
            skip_ne_reg_rel(*old(self), *final(self), x, y),
    {
        let condition = self.registers[x as usize] != self.registers[y as usize];
        self.skip_by(condition);
    }
}

} // verus!
