//! Verified core of a handheld 8-bit console emulator: register file,
//! cartridge bank controllers, memory bus with timer and joypad latch,
//! interrupt controller, pixel pipeline and the instruction interpreter.
//!
//! One `Gameboy` value owns all the state; the processor, the interrupt
//! controller, the pixel processing unit and the joypad are handed the bus
//! by mutable reference for each step. EI sets the interrupt master enable
//! at once rather than after the next instruction, and an undefined
//! opcode stops the interpreter with an error.

pub mod register;
pub mod register_pair;
pub mod instructions;
pub mod alu;
pub mod cartridge;
pub mod memory_manager;
pub mod opcodes;
pub mod cpu;
pub mod interrupt_handler;
pub mod gamepad;
pub mod display_manager;
pub mod gameboy;
