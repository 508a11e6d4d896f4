//! A virtual machine for a 16-bit fantasy console.

pub mod apu;
pub mod cpu;
pub mod debugger;
pub mod gpu;
pub mod input;
pub mod rom;
pub mod text;
pub mod util;
