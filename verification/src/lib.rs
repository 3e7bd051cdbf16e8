//! An emulator core for a small 8-bit machine: a processor with sixteen
//! registers and four-bit opcodes, and the memory-mapped devices it talks to
//! over a 64K bus.
//!
//! Every function here is verified: the processor's `step` against the
//! instruction table in [`processor`], each device against its own model of
//! the bus contract in [`bus`].
pub mod bus;
pub mod button_led;
pub mod command_device;
pub mod isa;
pub mod laws;
pub mod processor;
pub mod ram;
pub mod text_mode;
