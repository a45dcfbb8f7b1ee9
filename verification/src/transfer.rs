use vstd::prelude::*;

use rand::Rng;

use crate::flow::skip_rel;
use crate::machine::add16;
use crate::machine::eq_await;
use crate::machine::eq_index;
use crate::machine::eq_mem;
use crate::machine::eq_pc;
use crate::machine::eq_regs;
use crate::machine::eq_screen;
use crate::machine::eq_stack;
use crate::machine::eq_timers;
use crate::machine::wrap_add16;
use crate::machine::Chip8;
use crate::machine::Chip8Error;
use crate::machine::MEMORY_SIZE;

verus! {

/// Set index: the index register becomes `nnn`.
pub open spec fn set_index_rel(pre: Chip8, post: Chip8, nnn: u16) -> bool {
    &&& post.index_register == nnn
    &&& post.program_counter == wrap_add16(pre.program_counter, 2)
    &&& eq_mem(pre, post)
    &&& eq_regs(pre, post)
    &&& eq_stack(pre, post)
    &&& eq_timers(pre, post)
    &&& eq_screen(pre, post)
    &&& eq_await(pre, post)
}

/// Add to index: the index register grows by Vx, wrapping as a 16-bit value;
/// the program counter is left where it is.
pub open spec fn add_index_rel(pre: Chip8, post: Chip8, x: u8) -> bool {
    &&& post.index_register == wrap_add16(pre.index_register, pre.registers@[x as int] as u16)
    &&& eq_pc(pre, post)
    &&& eq_mem(pre, post)
    &&& eq_regs(pre, post)
    &&& eq_stack(pre, post)
    &&& eq_timers(pre, post)
    &&& eq_screen(pre, post)
    &&& eq_await(pre, post)
}

/// Sprite address: the index register becomes Vx times 5, the address of the
/// built-in sprite for the digit in Vx.
pub open spec fn sprite_addr_rel(pre: Chip8, post: Chip8, x: u8) -> bool {
    &&& post.index_register == 5 * pre.registers@[x as int]
    &&& post.program_counter == wrap_add16(pre.program_counter, 2)
    &&& eq_mem(pre, post)
    &&& eq_regs(pre, post)
    &&& eq_stack(pre, post)
    &&& eq_timers(pre, post)
    &&& eq_screen(pre, post)
    &&& eq_await(pre, post)
}

/// Get delay timer: Vx becomes the delay timer's current value.
pub open spec fn get_delay_rel(pre: Chip8, post: Chip8, x: u8) -> bool {
    &&& post.registers@ == pre.registers@.update(x as int, pre.delay_timer)
    &&& post.program_counter == wrap_add16(pre.program_counter, 2)
    &&& eq_mem(pre, post)
    &&& eq_index(pre, post)
    &&& eq_stack(pre, post)
    &&& eq_timers(pre, post)
    &&& eq_screen(pre, post)
    &&& eq_await(pre, post)
}

/// Set delay timer: the delay timer becomes Vx; the sound timer is untouched.
pub open spec fn set_delay_rel(pre: Chip8, post: Chip8, x: u8) -> bool {
    &&& post.delay_timer == pre.registers@[x as int]
    &&& post.sound_timer == pre.sound_timer
    &&& post.program_counter == wrap_add16(pre.program_counter, 2)
    &&& eq_mem(pre, post)
    &&& eq_regs(pre, post)
    &&& eq_index(pre, post)
    &&& eq_stack(pre, post)
    &&& eq_screen(pre, post)
    &&& eq_await(pre, post)
}

/// Store BCD: the hundreds, tens and ones decimal digits of Vx are stored at
/// the index register and the two following addresses. Writing past the end
/// of memory is fatal and changes nothing.
pub open spec fn store_bcd_rel(pre: Chip8, post: Chip8, x: u8, r: Result<(), Chip8Error>) -> bool {
    let idx = pre.index_register as int;
    if idx + 2 >= MEMORY_SIZE {
        &&& r == Err::<(), Chip8Error>(Chip8Error::MemoryOutOfBounds)
        &&& post == pre
    } else {
        let value = pre.registers@[x as int] as int;
        &&& r == Ok::<(), Chip8Error>(())
        &&& post.memory@ == pre.memory@.update(idx, (value / 100) as u8).update(
            idx + 1,
            ((value / 10) % 10) as u8,
        ).update(idx + 2, (value % 10) as u8)
        &&& post.program_counter == wrap_add16(pre.program_counter, 2)
        &&& eq_regs(pre, post)
        &&& eq_index(pre, post)
        &&& eq_stack(pre, post)
        &&& eq_timers(pre, post)
        &&& eq_screen(pre, post)
        &&& eq_await(pre, post)
    }
}

/// Register dump: V0 through Vx inclusive are copied into memory starting at
/// the index register, which itself is untouched. Writing past the end of
/// memory is fatal and changes nothing.
pub open spec fn dump_regs_rel(pre: Chip8, post: Chip8, x: u8, r: Result<(), Chip8Error>) -> bool {
    let idx = pre.index_register as int;
    if idx + x >= MEMORY_SIZE {
        &&& r == Err::<(), Chip8Error>(Chip8Error::MemoryOutOfBounds)
        &&& post == pre
    } else {
        &&& r == Ok::<(), Chip8Error>(())
        &&& post.memory@.len() == MEMORY_SIZE
        &&& forall|j: int| 0 <= j <= x ==> post.memory@[idx + j] == pre.registers@[j]
        &&& forall|j: int|
            0 <= j < MEMORY_SIZE && !(idx <= j <= idx + x) ==> post.memory@[j] == pre.memory@[j]
        &&& post.program_counter == wrap_add16(pre.program_counter, 2)
        &&& eq_regs(pre, post)
        &&& eq_index(pre, post)
        &&& eq_stack(pre, post)
        &&& eq_timers(pre, post)
        &&& eq_screen(pre, post)
        &&& eq_await(pre, post)
    }
}

/// Register load: V0 through Vx inclusive are filled from memory starting at
/// the index register, which itself is untouched; the higher registers keep
/// their values. Reading past the end of memory is fatal and changes nothing.
pub open spec fn load_regs_rel(pre: Chip8, post: Chip8, x: u8, r: Result<(), Chip8Error>) -> bool {
    let idx = pre.index_register as int;
    if idx + x >= MEMORY_SIZE {
        &&& r == Err::<(), Chip8Error>(Chip8Error::MemoryOutOfBounds)
        &&& post == pre
    } else {
        &&& r == Ok::<(), Chip8Error>(())
        &&& post.registers@.len() == 16
        &&& forall|j: int| 0 <= j <= x ==> post.registers@[j] == pre.memory@[idx + j]
        &&& forall|j: int| x < j < 16 ==> post.registers@[j] == pre.registers@[j]
        &&& post.program_counter == wrap_add16(pre.program_counter, 2)
        &&& eq_mem(pre, post)
        &&& eq_index(pre, post)
        &&& eq_stack(pre, post)
        &&& eq_timers(pre, post)
        &&& eq_screen(pre, post)
        &&& eq_await(pre, post)
    }
}

/// Random: Vx becomes some byte masked with `nn`; which byte is not
/// specified.
pub open spec fn random_rel(pre: Chip8, post: Chip8, x: u8, nn: u8) -> bool {
    &&& exists|random: u8|
        post.registers@ == pre.registers@.update(x as int, #[trigger] (random & nn))
    &&& post.program_counter == wrap_add16(pre.program_counter, 2)
    &&& eq_mem(pre, post)
    &&& eq_index(pre, post)
    &&& eq_stack(pre, post)
    &&& eq_timers(pre, post)
    &&& eq_screen(pre, post)
    &&& eq_await(pre, post)
}

/// Skip if the key numbered by Vx is pressed (or, for the negated variant,
/// not pressed). A register value outside the sixteen keys is fatal and
/// changes nothing.
pub open spec fn skip_key_rel(
    pre: Chip8,
    post: Chip8,
    x: u8,
    keys: Seq<bool>,
    want_pressed: bool,
    r: Result<(), Chip8Error>,
) -> bool {
    let key = pre.registers@[x as int];
    if key >= 16 {
        &&& r == Err::<(), Chip8Error>(Chip8Error::KeyOutOfRange)
        &&& post == pre
    } else {
        &&& r == Ok::<(), Chip8Error>(())
        &&& skip_rel(pre, post, keys[key as int] == want_pressed)
    }
}

/// Await key: while no key is pressed the machine stalls on this instruction,
/// only raising its waiting flag; the first tick on which some key is pressed
/// stores the lowest pressed key index in Vx, clears the flag, and resumes.
pub open spec fn await_key_rel(pre: Chip8, post: Chip8, x: u8, keys: Seq<bool>) -> bool {
    if exists|k: int| 0 <= k < 16 && keys[k] {
        &&& exists|key: u8|
            {
                &&& key < 16
                &&& #[trigger] keys[key as int]
                &&& forall|j: int| 0 <= j < key ==> !keys[j]
                &&& post.registers@ == pre.registers@.update(x as int, key)
            }
        &&& post.awaiting_keypress == false
        &&& post.program_counter == wrap_add16(pre.program_counter, 2)
        &&& eq_mem(pre, post)
        &&& eq_index(pre, post)
        &&& eq_stack(pre, post)
        &&& eq_timers(pre, post)
        &&& eq_screen(pre, post)
    } else {
        &&& post.awaiting_keypress == true
        &&& eq_pc(pre, post)
        &&& eq_regs(pre, post)
        &&& eq_mem(pre, post)
        &&& eq_index(pre, post)
        &&& eq_stack(pre, post)
        &&& eq_timers(pre, post)
        &&& eq_screen(pre, post)
    }
}

/// Relies on `rand::thread_rng` and `Rng::gen`, which yield a `u8`; nothing
/// is assumed about the value.
#[verifier::external_body]
fn random_byte() -> u8 {
    rand::thread_rng().gen()
}

impl Chip8 {
    pub(crate) fn op_set_index(&mut self, nnn: u16)
        requires
            old(self).wf(),
        ensures
            final(self).wf(),
            set_index_rel(*old(self), *final(self), nnn),
    {
        self.index_register = nnn;
        self.program_counter = add16(self.program_counter, 2);
    }

    pub(crate) fn op_add_index(&mut self, x: u8)
        requires
            old(self).wf(),
            x < 16,
        ensures
            final(self).wf(),
            add_index_rel(*old(self), *final(self), x),
    {
        let offset = self.registers[x as usize] as u16;
        self.index_register = add16(self.index_register, offset);
    }

    pub(crate) fn op_sprite_addr(&mut self, x: u8)
        requires
            old(self).wf(),
            x < 16,
        ensures
            final(self).wf(),
            sprite_addr_rel(*old(self), *final(self), x),
    {
        let digit = self.registers[x as usize] as u16;
        self.index_register = 5 * digit;
        self.program_counter = add16(self.program_counter, 2);
    }

    pub(crate) fn op_get_delay(&mut self, x: u8)
        requires
            old(self).wf(),
            x < 16,
        ensures
            final(self).wf(),
            get_delay_rel(*old(self), *final(self), x),
    {
        self.registers[x as usize] = self.delay_timer;
        self.program_counter = add16(self.program_counter, 2);
    }

    pub(crate) fn op_set_delay(&mut self, x: u8)
        requires
            old(self).wf(),
            x < 16,
        ensures
            final(self).wf(),
            set_delay_rel(*old(self), *final(self), x),
    {
        self.delay_timer = self.registers[x as usize];
        self.program_counter = add16(self.program_counter, 2);
    }

    pub(crate) fn op_store_bcd(&mut self, x: u8) -> (r: Result<(), Chip8Error>)
        requires
            old(self).wf(),
            x < 16,
        ensures
            final(self).wf(),
            store_bcd_rel(*old(self), *final(self), x, r),
    {
        let idx = self.index_register as usize;
        if idx + 2 >= MEMORY_SIZE {
            return Err(Chip8Error::MemoryOutOfBounds);
        }
        let value = self.registers[x as usize];
        self.memory[idx] = value / 100;
        self.memory[idx + 1] = (value / 10) % 10;
        self.memory[idx + 2] = value % 10;
        self.program_counter = add16(self.program_counter, 2);
        Ok(())
    }

    pub(crate) fn op_dump_regs(&mut self, x: u8) -> (r: Result<(), Chip8Error>)
        requires
            old(self).wf(),
            x < 16,
        ensures
            final(self).wf(),
            dump_regs_rel(*old(self), *final(self), x, r),
    {
        let idx = self.index_register as usize;
        if idx + (x as usize) >= MEMORY_SIZE {
            return Err(Chip8Error::MemoryOutOfBounds);
        }
        let count = x as usize + 1;
        for j in 0..count
            invariant
                old(self).wf(),
                x < 16,
                count == x + 1,
                idx == old(self).index_register as usize,
                idx + x < MEMORY_SIZE,
                self.memory@.len() == MEMORY_SIZE,
                forall|i: int| 0 <= i < j ==> self.memory@[idx + i] == old(self).registers@[i],
                forall|i: int|
                    0 <= i < MEMORY_SIZE && !(idx <= i < idx + j) ==> self.memory@[i] == old(
                        self
                    ).memory@[i],
                eq_regs(*old(self), *self),
                eq_index(*old(self), *self),
                eq_stack(*old(self), *self),
                eq_pc(*old(self), *self),
                eq_timers(*old(self), *self),
                eq_screen(*old(self), *self),
                eq_await(*old(self), *self),
        {
            self.memory[idx + j] = self.registers[j];
        }
        self.program_counter = add16(self.program_counter, 2);
        Ok(())
    }

    pub(crate) fn op_load_regs(&mut self, x: u8) -> (r: Result<(), Chip8Error>)
        requires
            old(self).wf(),
            x < 16,
        ensures
            final(self).wf(),
            load_regs_rel(*old(self), *final(self), x, r),
    {
        let idx = self.index_register as usize;
        if idx + (x as usize) >= MEMORY_SIZE {
            return Err(Chip8Error::MemoryOutOfBounds);
        }
        let count = x as usize + 1;
        for j in 0..count
            invariant
                old(self).wf(),
                x < 16,
                count == x + 1,
                idx == old(self).index_register as usize,
                idx + x < MEMORY_SIZE,
                self.registers@.len() == 16,
                forall|i: int| 0 <= i < j ==> self.registers@[i] == old(self).memory@[idx + i],
                forall|i: int| j <= i < 16 ==> self.registers@[i] == old(self).registers@[i],
                eq_mem(*old(self), *self),
                eq_index(*old(self), *self),
                eq_stack(*old(self), *self),
                eq_pc(*old(self), *self),
                eq_timers(*old(self), *self),
                eq_screen(*old(self), *self),
                eq_await(*old(self), *self),
        {
            self.registers[j] = self.memory[idx + j];
        }
        self.program_counter = add16(self.program_counter, 2);
        Ok(())
    }

    pub(crate) fn op_random(&mut self, x: u8, nn: u8)
        requires
            old(self).wf(),
            x < 16,
        ensures
            final(self).wf(),
            random_rel(*old(self), *final(self), x, nn),
    {
        let random = random_byte();
        let masked = random & nn;
        self.registers[x as usize] = masked;
        self.program_counter = add16(self.program_counter, 2);
        proof {
            assert(self.registers@ == old(self).registers@.update(x as int, random & nn));
        }
    }

    pub(crate) fn op_skip_key(&mut self, x: u8, keyboard_state: &[bool; 16], want_pressed: bool)
        -> (r: Result<(), Chip8Error>)
        requires
            old(self).wf(),
            x < 16,
        ensures
            final(self).wf(),
            skip_key_rel(*old(self), *final(self), x, keyboard_state@, want_pressed, r),
    {
        let key = self.registers[x as usize];
        if key >= 16 {
            return Err(Chip8Error::KeyOutOfRange);
        }
        let condition = keyboard_state[key as usize] == want_pressed;
        self.skip_by(condition);
        Ok(())
    }

    pub(crate) fn op_await_key(&mut self, x: u8, keyboard_state: &[bool; 16])
        requires
            old(self).wf(),
            x < 16,
        ensures
            final(self).wf(),
            await_key_rel(*old(self), *final(self), x, keyboard_state@),
    {
        let mut found: Option<u8> = None;
        for k in 0..16u8
            invariant
                found matches Some(key) ==> key < 16 && keyboard_state@[key as int] && forall|
                    j: int,
                |
                    0 <= j < key ==> !keyboard_state@[j],
                found is None ==> forall|j: int| 0 <= j < k ==> !keyboard_state@[j],
        {
            if found.is_none() && keyboard_state[k as usize] {
                found = Some(k);
            }
        }
        match found {
            Some(key) => {
                self.registers[x as usize] = key;
                self.awaiting_keypress = false;
                self.program_counter = add16(self.program_counter, 2);
            },
            None => {
                self.awaiting_keypress = true;
            },
        }
    }
}

} // verus!
