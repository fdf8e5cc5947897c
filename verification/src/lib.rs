//! A CHIP-8 virtual machine: memory, registers, display and the
//! fetch-decode-execute engine, with machine-checked contracts.

pub mod bits;
pub mod clock;
pub mod execute;
pub mod framebuffer;
pub mod hex;
pub mod laws;
pub mod machine;
pub mod memory;
pub mod model;
pub mod opcode;
mod random;
pub mod step;
