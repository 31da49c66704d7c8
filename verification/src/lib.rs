//! Reader for the CLI (ECMA-335) metadata embedded in PE/COFF executables.
//!
//! The crate decodes, over a borrowed byte buffer, the chain
//! image -> PE sections -> CLI header -> metadata root -> heaps -> tables -> rows,
//! where the width of every stored index is determined dynamically by sibling
//! row counts and a flag byte. Every read is bounds-checked and no decode
//! entry point panics: invalid data surfaces as an [`error::Error`] value.

pub mod assembly;
pub mod cursor;
pub mod error;
pub mod heaps;
pub mod indices;
pub mod kinds;
pub mod pe;
pub mod reader;
pub mod rows;
pub mod streams;
pub mod tables;
