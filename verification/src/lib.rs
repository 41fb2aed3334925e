//! Chip-support core for microcontrollers of the CC26x0 class.
//!
//! The core never touches hardware itself. Every operation is a function from
//! plain values (register contents, the line an interrupt came in on, the
//! bytes of an advertisement) to the register writes and collaborator calls
//! that the caller has to carry out, in order. What is read back from the
//! hardware is handed in again as a plain value.

pub mod regs;
mod bits;
pub mod aux;
pub mod chip;
pub mod radio;
pub mod uart;
