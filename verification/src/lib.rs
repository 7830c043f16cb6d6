//! Decoder and presenter for the fixed-size 64-bit ELF file header.
//!
//! The library turns a raw byte buffer into a validated [`elf::Elf64Ehdr`]
//! record — reading every multi-byte field according to the data encoding
//! that the buffer itself declares — and renders that record as the
//! canonical multi-line text report.  Obtaining the bytes and printing the
//! report are left to the caller.

pub mod elf;
pub mod errors;
pub mod ident;
pub mod laws;
pub mod layout;
pub mod numfmt;
pub mod present;
pub mod reader;
pub mod registry;
