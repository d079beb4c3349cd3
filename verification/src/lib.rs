//! A verified virtual machine for a small fixed 16-bit-opcode instruction
//! set: instruction decode, execution semantics with exact flag behaviour,
//! sprite-blit collision rules, real-time timer decay, and a 16-key input
//! latch.

pub mod disasm;
pub mod host;
pub mod interpreter;
pub mod keypad;
pub mod machine;
pub mod opcode;
pub mod types;

pub use keypad::KeyEvent;
pub use keypad::Keypad;
pub use machine::Chip8;
