use vstd::prelude::*;

use crate::alu::add_carry_rel;
use crate::alu::add_imm_rel;
use crate::alu::and_rel;
use crate::alu::assign_rel;
use crate::alu::load_imm_rel;
use crate::alu::or_rel;
use crate::alu::shift_left_rel;
use crate::alu::shift_right_rel;
use crate::alu::sub_borrow_rel;
use crate::alu::sub_reverse_rel;
use crate::alu::xor_rel;
use crate::decode::decode_opcode;
use crate::decode::lemma_decoded_fields_ok;
use crate::decode::spec_decode;
use crate::decode::Opcode;
use crate::flow::call_rel;
use crate::flow::jump_offset_rel;
use crate::flow::jump_rel;
use crate::flow::return_rel;
use crate::flow::skip_eq_imm_rel;
use crate::flow::skip_eq_reg_rel;
use crate::flow::skip_ne_imm_rel;
use crate::flow::skip_ne_reg_rel;
use crate::machine::Chip8;
use crate::machine::Chip8Error;
use crate::machine::MEMORY_SIZE;
use crate::screen::clear_rel;
use crate::screen::draw_rel;
use crate::transfer::add_index_rel;
use crate::transfer::await_key_rel;
use crate::transfer::dump_regs_rel;
use crate::transfer::get_delay_rel;
use crate::transfer::load_regs_rel;
use crate::transfer::random_rel;
use crate::transfer::set_delay_rel;
use crate::transfer::set_index_rel;
use crate::transfer::skip_key_rel;
use crate::transfer::sprite_addr_rel;
use crate::transfer::store_bcd_rel;

verus! {

/// What one executed instruction does to the machine: the word is decoded
/// and the matching opcode's transition holds, or the word is outside the
/// instruction set, nothing moves, and the fatal decode error is reported.
pub open spec fn instr_rel(
    pre: Chip8,
    post: Chip8,
    word: u16,
    keys: Seq<bool>,
    r: Result<(), Chip8Error>,
) -> bool {
    match spec_decode(word) {
        Option::None => r == Err::<(), Chip8Error>(Chip8Error::UnrecognizedOpcode(word)) && post
            == pre,
        Option::Some(op) => match op {
            Opcode::ClearDisplay => r == Ok::<(), Chip8Error>(()) && clear_rel(pre, post),
            Opcode::Return => return_rel(pre, post, r),
            Opcode::Jump { nnn } => r == Ok::<(), Chip8Error>(()) && jump_rel(pre, post, nnn),
            Opcode::Call { nnn } => r == Ok::<(), Chip8Error>(()) && call_rel(pre, post, nnn),
            Opcode::SkipEqImm { x, nn } => r == Ok::<(), Chip8Error>(()) && skip_eq_imm_rel(
                pre,
                post,
                x,
                nn,
            ),
            Opcode::SkipNeImm { x, nn } => r == Ok::<(), Chip8Error>(()) && skip_ne_imm_rel(
                pre,
                post,
                x,
                nn,
            ),
            Opcode::SkipEqReg { x, y } => r == Ok::<(), Chip8Error>(()) && skip_eq_reg_rel(
                pre,
                post,
                x,
                y,
            ),
            Opcode::LoadImm { x, nn } => r == Ok::<(), Chip8Error>(()) && load_imm_rel(
                pre,
                post,
                x,
                nn,
            ),
            Opcode::AddImm { x, nn } => r == Ok::<(), Chip8Error>(()) && add_imm_rel(
                pre,
                post,
                x,
                nn,
            ),
            Opcode::Assign { x, y } => r == Ok::<(), Chip8Error>(()) && assign_rel(pre, post, x, y),
            Opcode::Or { x, y } => r == Ok::<(), Chip8Error>(()) && or_rel(pre, post, x, y),
            Opcode::And { x, y } => r == Ok::<(), Chip8Error>(()) && and_rel(pre, post, x, y),
            Opcode::Xor { x, y } => r == Ok::<(), Chip8Error>(()) && xor_rel(pre, post, x, y),
            Opcode::AddCarry { x, y } => r == Ok::<(), Chip8Error>(()) && add_carry_rel(
                pre,
                post,
                x,
                y,
            ),
            Opcode::SubBorrow { x, y } => r == Ok::<(), Chip8Error>(()) && sub_borrow_rel(
                pre,
                post,
                x,
                y,
            ),
            Opcode::ShiftRight { x } => r == Ok::<(), Chip8Error>(()) && shift_right_rel(
                pre,
                post,
                x,
            ),
            Opcode::SubReverse { x, y } => r == Ok::<(), Chip8Error>(()) && sub_reverse_rel(
                pre,
                post,
                x,
                y,
            ),
            Opcode::ShiftLeft { x } => r == Ok::<(), Chip8Error>(()) && shift_left_rel(pre, post, x),
            Opcode::SkipNeReg { x, y } => r == Ok::<(), Chip8Error>(()) && skip_ne_reg_rel(
                pre,
                post,
                x,
                y,
            ),
            Opcode::SetIndex { nnn } => r == Ok::<(), Chip8Error>(()) && set_index_rel(
                pre,
                post,
                nnn,
            ),
            Opcode::JumpOffset { nnn } => r == Ok::<(), Chip8Error>(()) && jump_offset_rel(
                pre,
                post,
                nnn,
            ),
            Opcode::Random { x, nn } => r == Ok::<(), Chip8Error>(()) && random_rel(
                pre,
                post,
                x,
                nn,
            ),
            Opcode::Draw { x, y, n } => draw_rel(pre, post, x, y, n, r),
            Opcode::SkipKeyPressed { x } => skip_key_rel(pre, post, x, keys, true, r),
            Opcode::SkipKeyNotPressed { x } => skip_key_rel(pre, post, x, keys, false, r),
            Opcode::GetDelay { x } => r == Ok::<(), Chip8Error>(()) && get_delay_rel(pre, post, x),
            Opcode::AwaitKey { x } => r == Ok::<(), Chip8Error>(()) && await_key_rel(
                pre,
                post,
                x,
                keys,
            ),
            Opcode::SetDelay { x } => r == Ok::<(), Chip8Error>(()) && set_delay_rel(pre, post, x),
            Opcode::AddIndex { x } => r == Ok::<(), Chip8Error>(()) && add_index_rel(pre, post, x),
            Opcode::SpriteAddr { x } => r == Ok::<(), Chip8Error>(()) && sprite_addr_rel(
                pre,
                post,
                x,
            ),
            Opcode::StoreBcd { x } => store_bcd_rel(pre, post, x, r),
            Opcode::DumpRegs { x } => dump_regs_rel(pre, post, x, r),
            Opcode::LoadRegs { x } => load_regs_rel(pre, post, x, r),
        },
    }
}

/// The instruction word at the program counter: two consecutive bytes,
/// big-endian.
pub open spec fn fetched_word(pre: Chip8) -> u16 {
    (pre.memory@[pre.program_counter as int] * 256 + pre.memory@[pre.program_counter as int
        + 1]) as u16
}

/// One full fetch-decode-execute cycle: fetching past the end of memory is
/// fatal and changes nothing; otherwise the fetched word is executed.
pub open spec fn step_rel(
    pre: Chip8,
    post: Chip8,
    keys: Seq<bool>,
    r: Result<(), Chip8Error>,
) -> bool {
    if pre.program_counter as int + 1 >= MEMORY_SIZE {
        &&& r == Err::<(), Chip8Error>(Chip8Error::MemoryOutOfBounds)
        &&& post == pre
    } else {
        instr_rel(pre, post, fetched_word(pre), keys, r)
    }
}

/// The keyboard snapshot the one-argument entry point assumes: no key
/// pressed.
pub open spec fn no_keys() -> Seq<bool> {
    Seq::new(16, |i: int| false)
}

impl Chip8 {
    /// Executes one already-fetched instruction word against the given
    /// keyboard snapshot.
    fn execute_instruction(&mut self, word: u16, keyboard_state: &[bool; 16]) -> (r: Result<
        (),
        Chip8Error,
    >)
        requires
            old(self).wf(),
        ensures
            final(self).wf(),
            instr_rel(*old(self), *final(self), word, keyboard_state@, r),
    {
        proof {
            lemma_decoded_fields_ok(word);
        }
        match decode_opcode(word) {
            None => Err(Chip8Error::UnrecognizedOpcode(word)),
            Some(op) => match op {
                Opcode::ClearDisplay => {
                    self.op_clear();
                    Ok(())
                },
                Opcode::Return => self.op_return(),
                Opcode::Jump { nnn } => {
                    self.op_jump(nnn);
                    Ok(())
                },
                Opcode::Call { nnn } => {
                    self.op_call(nnn);
                    Ok(())
                },
                Opcode::SkipEqImm { x, nn } => {
                    self.op_skip_eq_imm(x, nn);
                    Ok(())
                },
                Opcode::SkipNeImm { x, nn } => {
                    self.op_skip_ne_imm(x, nn);
                    Ok(())
                },
                Opcode::SkipEqReg { x, y } => {
                    self.op_skip_eq_reg(x, y);
                    Ok(())
                },
                Opcode::LoadImm { x, nn } => {
                    self.op_load_imm(x, nn);
                    Ok(())
                },
                Opcode::AddImm { x, nn } => {
                    self.op_add_imm(x, nn);
                    Ok(())
                },
                Opcode::Assign { x, y } => {
                    self.op_assign(x, y);
                    Ok(())
                },
                Opcode::Or { x, y } => {
                    self.op_or(x, y);
                    Ok(())
                },
                Opcode::And { x, y } => {
                    self.op_and(x, y);
                    Ok(())
                },
                Opcode::Xor { x, y } => {
                    self.op_xor(x, y);
                    Ok(())
                },
                Opcode::AddCarry { x, y } => {
                    self.op_add_carry(x, y);
                    Ok(())
                },
                Opcode::SubBorrow { x, y } => {
                    self.op_sub_borrow(x, y);
                    Ok(())
                },
                Opcode::ShiftRight { x } => {
                    self.op_shift_right(x);
                    Ok(())
                },
                Opcode::SubReverse { x, y } => {
                    self.op_sub_reverse(x, y);
                    Ok(())
                },
                Opcode::ShiftLeft { x } => {
                    self.op_shift_left(x);
                    Ok(())
                },
                Opcode::SkipNeReg { x, y } => {
                    self.op_skip_ne_reg(x, y);
                    Ok(())
                },
                Opcode::SetIndex { nnn } => {
                    self.op_set_index(nnn);
                    Ok(())
                },
                Opcode::JumpOffset { nnn } => {
                    self.op_jump_offset(nnn);
                    Ok(())
                },
                Opcode::Random { x, nn } => {
                    self.op_random(x, nn);
                    Ok(())
                },
                Opcode::Draw { x, y, n } => self.op_draw(x, y, n),
                Opcode::SkipKeyPressed { x } => self.op_skip_key(x, keyboard_state, true),
                Opcode::SkipKeyNotPressed { x } => self.op_skip_key(x, keyboard_state, false),
                Opcode::GetDelay { x } => {
                    self.op_get_delay(x);
                    Ok(())
                },
                Opcode::AwaitKey { x } => {
                    self.op_await_key(x, keyboard_state);
                    Ok(())
                },
                Opcode::SetDelay { x } => {
                    self.op_set_delay(x);
                    Ok(())
                },
                Opcode::AddIndex { x } => {
                    self.op_add_index(x);
                    Ok(())
                },
                Opcode::SpriteAddr { x } => {
                    self.op_sprite_addr(x);
                    Ok(())
                },
                Opcode::StoreBcd { x } => self.op_store_bcd(x),
                Opcode::DumpRegs { x } => self.op_dump_regs(x),
                Opcode::LoadRegs { x } => self.op_load_regs(x),
            },
        }
    }

    /// Executes one instruction word as if no key were pressed: the direct
    /// entry point for callers that feed instructions themselves.
    pub fn handle_instruction(&mut self, instruction: u16) -> (r: Result<(), Chip8Error>)
        requires
            old(self).wf(),
        ensures
            final(self).wf(),
            instr_rel(*old(self), *final(self), instruction, no_keys(), r),
    {
        let keyboard_state: [bool; 16] = [false;16];
        proof {
            assert(keyboard_state@ =~= no_keys());
        }
        self.execute_instruction(instruction, &keyboard_state)
    }

    /// One instruction cycle: fetch the word at the program counter, decode
    /// it, execute it against the given keyboard snapshot, and advance or
    /// redirect the program counter as the opcode dictates.
    pub fn handle_next_instruction(&mut self, keyboard_state: &[bool; 16]) -> (r: Result<
        (),
        Chip8Error,
    >)
        requires
            old(self).wf(),
        ensures
            final(self).wf(),
            step_rel(*old(self), *final(self), keyboard_state@, r),
    {
        let counter = self.program_counter as usize;
        if counter + 1 >= MEMORY_SIZE {
            return Err(Chip8Error::MemoryOutOfBounds);
        }
        let word = Chip8::decode(self.memory[counter], self.memory[counter + 1]);
        self.execute_instruction(word, keyboard_state)
    }
}

} // verus!
