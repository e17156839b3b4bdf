//! Extracts the fenced code blocks of one language from a markdown document
//! and prepares the script they make up for an interpreter.

pub mod code_block_options;
pub mod code_container;
pub mod executor;
pub mod extract;
pub mod pick;
pub mod text;
