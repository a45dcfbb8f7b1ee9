mod alu;
mod decode;
mod flow;
mod laws;
mod machine;
mod pixel;
mod screen;
mod step;
mod transfer;

pub use decode::Opcode;
pub use machine::Chip8;
pub use machine::Chip8Error;
pub use machine::MAX_PROGRAM_SIZE;
pub use machine::MEMORY_SIZE;
pub use machine::PROGRAM_START;
pub use pixel::Pixel;
pub use pixel::DEFAULT_CHIP8_PIXEL_HEIGHT;
pub use pixel::DEFAULT_CHIP8_PIXEL_WIDTH;
