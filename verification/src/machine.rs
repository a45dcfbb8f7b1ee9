use vstd::prelude::*;

use crate::pixel::Pixel;
use crate::pixel::DEFAULT_CHIP8_PIXEL_HEIGHT;
use crate::pixel::DEFAULT_CHIP8_PIXEL_WIDTH;
use crate::pixel::height_error_message;
use crate::pixel::height_error_string;
use crate::pixel::scale_mismatch_message;
use crate::pixel::scale_mismatch_string;
use crate::pixel::width_error_message;
use crate::pixel::width_error_string;

verus! {

/// Size of the byte-addressable memory space.
pub const MEMORY_SIZE: usize = 4096;

/// Address at which loaded programs start, and the program counter's initial value.
pub const PROGRAM_START: u16 = 0x200;

/// Largest program image that fits between `PROGRAM_START` and the end of memory.
pub const MAX_PROGRAM_SIZE: usize = 3584;

/// Failures the virtual machine reports instead of continuing with corrupted
/// state: a program image that does not fit, and the execution-time invariant
/// violations (an instruction word outside the instruction set, a return with
/// an empty call stack, a memory or key access past the valid range).
#[derive(Clone, Copy, Debug, PartialEq, Eq, Structural)]
pub enum Chip8Error {
    ProgramTooLarge,
    UnrecognizedOpcode(u16),
    StackUnderflow,
    MemoryOutOfBounds,
    KeyOutOfRange,
}

/// The virtual machine: memory, the sixteen general registers, the index
/// register, the call stack, the program counter, the two timers, and the
/// 64 x 32 framebuffer together with its redraw bookkeeping.
pub struct Chip8 {
    pub memory: Vec<u8>,
    pub registers: Vec<u8>,
    pub index_register: u16,
    pub stack: Vec<u16>,
    pub program_counter: u16,
    pub delay_timer: u8,
    pub sound_timer: u8,
    pub vram: Vec<Vec<Pixel>>,
    pub vram_changed: bool,
    pub vram_scale: usize,
    pub awaiting_keypress: bool,
}

pub open spec fn pix(vram: Seq<Vec<Pixel>>, y: int, x: int) -> Pixel {
    vram[y]@[x]
}

/// Whether the framebuffer cell at row `y`, column `x` is lit.
pub open spec fn pix_on(vram: Seq<Vec<Pixel>>, y: int, x: int) -> bool {
    vram[y]@[x].on
}

/// The cell at row `y`, column `x` records its own coordinates and the screen's scale.
pub open spec fn pix_placed(vram: Seq<Vec<Pixel>>, scale: u32, y: int, x: int) -> bool {
    &&& pix(vram, y, x).x == x as u32
    &&& pix(vram, y, x).y == y as u32
    &&& pix(vram, y, x).x_scale == scale
    &&& pix(vram, y, x).y_scale == scale
}

/// The framebuffer is a 32-row, 64-column grid whose cells carry their own
/// coordinates and the given scale.
pub open spec fn screen_wf(vram: Seq<Vec<Pixel>>, scale: u32) -> bool {
    &&& vram.len() == 32
    &&& forall|y: int| 0 <= y < 32 ==> (#[trigger] vram[y])@.len() == 64
    &&& forall|y: int, x: int| 0 <= y < 32 && 0 <= x < 64 ==> #[trigger] pix_placed(
        vram,
        scale,
        y,
        x,
    )
}

impl Chip8 {
    /// Structural well-formedness: the memory and register files have their
    /// fixed sizes and the framebuffer is a coherent grid.
    pub open spec fn wf(self) -> bool {
        &&& self.memory@.len() == MEMORY_SIZE
        &&& self.registers@.len() == 16
        &&& self.vram_scale <= u32::MAX as usize
        &&& screen_wf(self.vram@, self.vram_scale as u32)
    }
}

/// The state every field has at construction and after `reset`: memory all
/// zero except the built-in sprite set, registers and timers clear, empty
/// stack, program counter at `PROGRAM_START`, framebuffer dark at scale 1.
pub open spec fn is_initial(chip8: Chip8) -> bool {
    &&& chip8.wf()
    &&& forall|i: int| 0 <= i < 80 ==> chip8.memory@[i] == sprite_bytes()[i]
    &&& forall|i: int| 80 <= i < 4096 ==> chip8.memory@[i] == 0u8
    &&& forall|i: int| 0 <= i < 16 ==> chip8.registers@[i] == 0u8
    &&& chip8.index_register == 0u16
    &&& chip8.stack@ =~= Seq::<u16>::empty()
    &&& chip8.program_counter == PROGRAM_START
    &&& chip8.delay_timer == 0u8
    &&& chip8.sound_timer == 0u8
    &&& forall|y: int, x: int| 0 <= y < 32 && 0 <= x < 64 ==> !pix_on(chip8.vram@, y, x)
    &&& chip8.vram_changed == false
    &&& chip8.vram_scale == 1usize
    &&& chip8.awaiting_keypress == false
}

/// 16-bit register addition: wraps modulo 2^16, as the program counter and
/// index register do.
pub open spec fn wrap_add16(a: u16, b: u16) -> u16 {
    if a + b > 0xFFFF {
        (a + b - 0x10000) as u16
    } else {
        (a + b) as u16
    }
}

/// Executable 16-bit wrapping addition, for stepping the program counter and
/// growing the index register.
pub(crate) fn add16(a: u16, b: u16) -> (sum: u16)
    ensures
        sum == wrap_add16(a, b),
{
    a.wrapping_add(b)
}

pub open spec fn eq_mem(pre: Chip8, post: Chip8) -> bool {
    post.memory == pre.memory
}

pub open spec fn eq_regs(pre: Chip8, post: Chip8) -> bool {
    post.registers == pre.registers
}

pub open spec fn eq_index(pre: Chip8, post: Chip8) -> bool {
    post.index_register == pre.index_register
}

pub open spec fn eq_stack(pre: Chip8, post: Chip8) -> bool {
    post.stack == pre.stack
}

pub open spec fn eq_pc(pre: Chip8, post: Chip8) -> bool {
    post.program_counter == pre.program_counter
}

pub open spec fn eq_timers(pre: Chip8, post: Chip8) -> bool {
    post.delay_timer == pre.delay_timer && post.sound_timer == pre.sound_timer
}

pub open spec fn eq_screen(pre: Chip8, post: Chip8) -> bool {
    post.vram == pre.vram && post.vram_changed == pre.vram_changed && post.vram_scale
        == pre.vram_scale
}

pub open spec fn eq_await(pre: Chip8, post: Chip8) -> bool {
    post.awaiting_keypress == pre.awaiting_keypress
}

/// The built-in sprite set: five bytes for each of the sixteen hexadecimal
/// digits, stored from address 0 upward.
pub open spec fn sprite_bytes() -> Seq<u8> {
    seq![
        0xF0u8, 0x90, 0x90, 0x90, 0xF0,
        0x20, 0x60, 0x20, 0x20, 0x70,
        0xF0, 0x10, 0xF0, 0x80, 0xF0,
        0xF0, 0x10, 0xF0, 0x10, 0xF0,
        0x90, 0x90, 0xF0, 0x10, 0x10,
        0xF0, 0x80, 0xF0, 0x10, 0xF0,
        0xF0, 0x80, 0xF0, 0x90, 0xF0,
        0xF0, 0x10, 0x20, 0x40, 0x40,
        0xF0, 0x90, 0xF0, 0x90, 0xF0,
        0xF0, 0x90, 0xF0, 0x10, 0xF0,
        0xF0, 0x90, 0xF0, 0x90, 0x90,
        0xE0, 0x90, 0xE0, 0x90, 0xE0,
        0xF0, 0x80, 0x80, 0x80, 0xF0,
        0xE0, 0x90, 0x90, 0x90, 0xE0,
        0xF0, 0x80, 0xF0, 0x80, 0xF0,
        0xF0, 0x80, 0xF0, 0x80, 0x80,
    ]
}

/// A vector of `count` zero bytes.
fn zero_bytes(count: usize) -> (bytes: Vec<u8>)
    ensures
        bytes@.len() == count,
        forall|i: int| 0 <= i < count ==> bytes@[i] == 0u8,
{
    let mut bytes: Vec<u8> = Vec::new();
    for filled in 0..count
        invariant
            bytes@.len() == filled,
            forall|i: int| 0 <= i < filled ==> bytes@[i] == 0u8,
    {
        bytes.push(0);
    }
    bytes
}

/// A dark 32 x 64 framebuffer at the given scale.
pub(crate) fn blank_screen(scale: u32) -> (vram: Vec<Vec<Pixel>>)
    ensures
        screen_wf(vram@, scale),
        forall|y: int, x: int| 0 <= y < 32 && 0 <= x < 64 ==> !pix_on(vram@, y, x),
{
    let mut vram: Vec<Vec<Pixel>> = Vec::new();
    for y_location in 0..32u32
        invariant
            vram@.len() == y_location,
            forall|y: int| 0 <= y < y_location ==> (#[trigger] vram@[y])@.len() == 64,
            forall|y: int, x: int|
                0 <= y < y_location && 0 <= x < 64 ==> #[trigger] vram@[y]@[x] == (Pixel {
                    x: x as u32,
                    y: y as u32,
                    on: false,
                    x_scale: scale,
                    y_scale: scale,
                }),
    {
        let mut row: Vec<Pixel> = Vec::new();
        for x_location in 0..64u32
            invariant
                row@.len() == x_location,
                forall|x: int|
                    0 <= x < x_location ==> #[trigger] row@[x] == (Pixel {
                        x: x as u32,
                        y: y_location as u32,
                        on: false,
                        x_scale: scale,
                        y_scale: scale,
                    }),
        {
            row.push(Pixel::new(x_location, y_location, false, scale, scale));
        }
        vram.push(row);
    }
    vram
}

impl Chip8 {
    /// A freshly constructed machine: cleared state with the built-in sprite
    /// set already in memory and the program counter at `PROGRAM_START`.
    pub fn new() -> (chip8: Chip8)
        ensures
            is_initial(chip8),
    {
        let memory = zero_bytes(MEMORY_SIZE);
        let registers = zero_bytes(16);
        let vram = blank_screen(1);
        let mut chip8 = Chip8 {
            memory,
            registers,
            index_register: 0,
            stack: Vec::new(),
            program_counter: PROGRAM_START,
            delay_timer: 0,
            sound_timer: 0,
            vram,
            vram_changed: false,
            vram_scale: 1,
            awaiting_keypress: false,
        };
        chip8.load_sprites_into_memory();
        chip8
    }

    /// Reinitializes every field to the construction state.
    pub fn reset(&mut self)
        ensures
            is_initial(*final(self)),
    {
        let fresh = Chip8::new();
        *self = fresh;
    }

    /// Copies the built-in sprite set into memory at address 0; the rest of
    /// memory and all other state is untouched.
    pub fn load_sprites_into_memory(&mut self)
        requires
            old(self).wf(),
        ensures
            final(self).wf(),
            final(self).memory@.len() == MEMORY_SIZE,
            forall|i: int| 0 <= i < 80 ==> final(self).memory@[i] == sprite_bytes()[i],
            forall|i: int| 80 <= i < 4096 ==> final(self).memory@[i] == old(self).memory@[i],
            eq_regs(*old(self), *final(self)),
            eq_index(*old(self), *final(self)),
            eq_stack(*old(self), *final(self)),
            eq_pc(*old(self), *final(self)),
            eq_timers(*old(self), *final(self)),
            eq_screen(*old(self), *final(self)),
            eq_await(*old(self), *final(self)),
    {
        let table = sprite_table();
        for index in 0..80usize
            invariant
                old(self).wf(),
                self.memory@.len() == MEMORY_SIZE,
                table@ == sprite_bytes(),
                forall|i: int| 0 <= i < index ==> self.memory@[i] == sprite_bytes()[i],
                forall|i: int|
                    index <= i < 4096 ==> self.memory@[i] == old(self).memory@[i],
                eq_regs(*old(self), *self),
                eq_index(*old(self), *self),
                eq_stack(*old(self), *self),
                eq_pc(*old(self), *self),
                eq_timers(*old(self), *self),
                eq_screen(*old(self), *self),
                eq_await(*old(self), *self),
        {
            self.memory[index] = table[index];
        }
    }

    /// Writes one general register; the poke interface for external callers.
    pub fn set_register_value(&mut self, register: u8, value: u8)
        requires
            old(self).wf(),
            register < 16,
        ensures
            final(self).wf(),
            final(self).registers@ == old(self).registers@.update(register as int, value),
            eq_mem(*old(self), *final(self)),
            eq_index(*old(self), *final(self)),
            eq_stack(*old(self), *final(self)),
            eq_pc(*old(self), *final(self)),
            eq_timers(*old(self), *final(self)),
            eq_screen(*old(self), *final(self)),
            eq_await(*old(self), *final(self)),
    {
        self.registers[register as usize] = value;
    }

    /// Copies a program image into memory starting at `PROGRAM_START`; an
    /// image longer than the remaining memory is rejected whole.
    pub fn load_program(&mut self, program: &Vec<u8>) -> (result: Result<(), Chip8Error>)
        requires
            old(self).wf(),
        ensures
            final(self).wf(),
            program@.len() > MAX_PROGRAM_SIZE ==> result == Err::<(), Chip8Error>(
                Chip8Error::ProgramTooLarge,
            ) && *final(self) == *old(self),
            program@.len() <= MAX_PROGRAM_SIZE ==> {
                &&& result == Ok::<(), Chip8Error>(())
                &&& final(self).memory@.len() == MEMORY_SIZE
                &&& forall|i: int|
                    0 <= i < program@.len() ==> final(self).memory@[0x200 + i] == program@[i]
                &&& forall|i: int|
                    0 <= i < 4096 && !(0x200 <= i < 0x200 + program@.len()) ==> final(
                        self
                    ).memory@[i] == old(self).memory@[i]
                &&& eq_regs(*old(self), *final(self))
                &&& eq_index(*old(self), *final(self))
                &&& eq_stack(*old(self), *final(self))
                &&& eq_pc(*old(self), *final(self))
                &&& eq_timers(*old(self), *final(self))
                &&& eq_screen(*old(self), *final(self))
                &&& eq_await(*old(self), *final(self))
            },
    {
        if program.len() > MAX_PROGRAM_SIZE {
            return Err(Chip8Error::ProgramTooLarge);
        }
        let count = program.len();
        for index in 0..count
            invariant
                old(self).wf(),
                count == program@.len(),
                count <= MAX_PROGRAM_SIZE,
                self.memory@.len() == MEMORY_SIZE,
                forall|i: int| 0 <= i < index ==> self.memory@[0x200 + i] == program@[i],
                forall|i: int|
                    0 <= i < 4096 && !(0x200 <= i < 0x200 + index) ==> self.memory@[i] == old(
                        self
                    ).memory@[i],
                eq_regs(*old(self), *self),
                eq_index(*old(self), *self),
                eq_stack(*old(self), *self),
                eq_pc(*old(self), *self),
                eq_timers(*old(self), *self),
                eq_screen(*old(self), *self),
                eq_await(*old(self), *self),
        {
            self.memory[0x200 + index] = program[index];
        }
        Ok(())
    }

    /// Checks that the window divides evenly into the 64 x 32 grid with one
    /// common scale, then rebuilds the framebuffer dark at that scale.
    pub fn initialize_pixels(&mut self, height: u32, width: u32) -> (result: Result<(), String>)
        requires
            old(self).wf(),
        ensures
            final(self).wf(),
            height % DEFAULT_CHIP8_PIXEL_HEIGHT != 0 ==> (result matches Err(m) && m@
                == height_error_message(height) && *final(self) == *old(self)),
            height % DEFAULT_CHIP8_PIXEL_HEIGHT == 0 && width % DEFAULT_CHIP8_PIXEL_WIDTH != 0 ==> (
            result matches Err(m) && m@ == width_error_message(width) && *final(self) == *old(
                self
            )),
            height % DEFAULT_CHIP8_PIXEL_HEIGHT == 0 && width % DEFAULT_CHIP8_PIXEL_WIDTH == 0
                && height / DEFAULT_CHIP8_PIXEL_HEIGHT != width / DEFAULT_CHIP8_PIXEL_WIDTH ==> (
            result matches Err(m) && m@ == scale_mismatch_message(
                width / DEFAULT_CHIP8_PIXEL_WIDTH,
                height / DEFAULT_CHIP8_PIXEL_HEIGHT,
            ) && *final(self) == *old(self)),
            height % DEFAULT_CHIP8_PIXEL_HEIGHT == 0 && width % DEFAULT_CHIP8_PIXEL_WIDTH == 0
                && height / DEFAULT_CHIP8_PIXEL_HEIGHT == width / DEFAULT_CHIP8_PIXEL_WIDTH ==> {
                &&& result matches Ok(unit)
                &&& final(self).vram_scale == (height / DEFAULT_CHIP8_PIXEL_HEIGHT) as usize
                &&& screen_wf(final(self).vram@, height / DEFAULT_CHIP8_PIXEL_HEIGHT)
                &&& forall|y: int, x: int|
                    0 <= y < 32 && 0 <= x < 64 ==> !pix_on(final(self).vram@, y, x)
                &&& final(self).vram_changed == old(self).vram_changed
                &&& eq_mem(*old(self), *final(self))
                &&& eq_regs(*old(self), *final(self))
                &&& eq_index(*old(self), *final(self))
                &&& eq_stack(*old(self), *final(self))
                &&& eq_pc(*old(self), *final(self))
                &&& eq_timers(*old(self), *final(self))
                &&& eq_await(*old(self), *final(self))
            },
    {
        if height % DEFAULT_CHIP8_PIXEL_HEIGHT != 0 {
            return Err(height_error_string(height));
        }
        if width % DEFAULT_CHIP8_PIXEL_WIDTH != 0 {
            return Err(width_error_string(width));
        }
        let height_scale = height / DEFAULT_CHIP8_PIXEL_HEIGHT;
        let width_scale = width / DEFAULT_CHIP8_PIXEL_WIDTH;
        if height_scale != width_scale {
            return Err(scale_mismatch_string(width_scale, height_scale));
        }
        self.vram_scale = height_scale as usize;
        self.vram = blank_screen(height_scale);
        Ok(())
    }
}

/// The built-in sprite set as a vector, for copying into memory.
fn sprite_table() -> (table: Vec<u8>)
    ensures
        table@ == sprite_bytes(),
{
    let table: Vec<u8> = vec![
        0xF0, 0x90, 0x90, 0x90, 0xF0,
        0x20, 0x60, 0x20, 0x20, 0x70,
        0xF0, 0x10, 0xF0, 0x80, 0xF0,
        0xF0, 0x10, 0xF0, 0x10, 0xF0,
        0x90, 0x90, 0xF0, 0x10, 0x10,
        0xF0, 0x80, 0xF0, 0x10, 0xF0,
        0xF0, 0x80, 0xF0, 0x90, 0xF0,
        0xF0, 0x10, 0x20, 0x40, 0x40,
        0xF0, 0x90, 0xF0, 0x90, 0xF0,
        0xF0, 0x90, 0xF0, 0x10, 0xF0,
        0xF0, 0x90, 0xF0, 0x90, 0x90,
        0xE0, 0x90, 0xE0, 0x90, 0xE0,
        0xF0, 0x80, 0x80, 0x80, 0xF0,
        0xE0, 0x90, 0x90, 0x90, 0xE0,
        0xF0, 0x80, 0xF0, 0x80, 0xF0,
        0xF0, 0x80, 0xF0, 0x80, 0x80,
    ];
    proof {
        assert(table@ =~= sprite_bytes());
    }
    table
}

} // verus!
