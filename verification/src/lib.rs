//! An interpreter for the CHIP-8 virtual machine: memory, frame buffer, keypad
//! and the instruction cycle, each with a mathematical model that its
//! contracts are stated over.

pub mod keypad;
pub mod memory;
pub mod display;
pub mod bus;
pub mod cpu;
pub mod utils;
pub mod machine;
