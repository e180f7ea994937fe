//! Encoders for the three fixed-shape records at the head of an ELF object
//! file: the file header, the program (segment) header and the section header.
//!
//! Each record is a value object: it is constructed with defaults for one
//! execution class, changed through setters, and consumed by `write_bytes`,
//! which returns its exact on-disk bytes. What those bytes are is stated by
//! the `encoded` function of each record's view, over the byte sequences of
//! the `encoding` module.
//!
//! The records check nothing across fields: that offsets, counts and sizes
//! fit the file they describe is the caller's business.

pub mod elf_header;
pub mod encoding;
pub mod program_header;
pub mod section_header;
