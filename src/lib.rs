//! A CHIP-8 virtual machine: instruction decoding, instruction semantics,
//! the keypad mapping, the monochrome framebuffer, the countdown timers and
//! the debug command protocol, each with a contract that Verus proves.

pub mod opcode;
pub mod register;
pub mod keyboard;
pub mod timers;
pub mod display;
pub mod debugiface;
pub mod chip8;
pub mod semantics;
pub mod execute;
pub mod laws;
pub mod lexer;
pub mod panels;
