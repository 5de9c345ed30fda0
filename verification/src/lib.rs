//! A CHIP-8 / SUPER-CHIP interpreter core.
//!
//! The machine has 4 KB of memory, sixteen 8-bit registers, a 16-slot call
//! stack, two countdown timers and a 128x64 monochrome display that is driven
//! either at full resolution or as 64x32 blocks of 2x2 pixels.
//!
//! Every executable function carries a contract over the mathematical model
//! in [`machine`]; [`laws`] holds what follows from the model for every
//! program. A host creates a [`Chip8VM`], loads a program, and then calls
//! [`Chip8VM::do_frame`] once per display refresh.
pub mod font;
pub mod hex;
pub mod decode;
pub mod diagnostic;
pub mod display;
pub mod dump;
pub mod machine;
pub mod laws;
mod rng;
pub mod vm;

pub use decode::decode;
pub use decode::Instruction;
pub use diagnostic::Diagnostic;
pub use machine::Machine;
pub use vm::Chip8VM;
