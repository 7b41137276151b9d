//! A CHIP-8 virtual machine whose instruction semantics are stated as
//! contracts over a mathematical model of the machine state.

pub mod font;
pub mod instruction;
pub mod model;
pub mod machine;
pub mod execute;
pub mod laws;
pub mod driver;

pub use driver::adjust_speed;
pub use instruction::{decode, Instruction};
pub use machine::{tone_action, Chip8};
pub use model::{Chip8Error, Quirks, ToneAction};
