//! The instructions of the program.

pub mod create_mint;
