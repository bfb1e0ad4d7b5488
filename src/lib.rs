//! An interpreter for the Sharp LR35902, the 8-bit CPU of the Game Boy.
//!
//! `operations` holds the ALU, `instruction` the decoder, `model` the
//! abstract machine that the CPU's contracts are stated over, `gb` the CPU
//! itself, and `laws` the properties that relate several operations.
pub mod gb;
pub mod instruction;
pub mod laws;
pub mod model;
pub mod operations;
