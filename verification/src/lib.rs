//! Decoding of the fixed-size identification header at the start of an ELF
//! (Executable and Linkable Format) object file.
//!
//! The [`reader::Reader`] wraps an in-memory byte stream and offers primitive
//! reads of raw bytes as well as endianness-aware reads of 16/32/64-bit
//! unsigned integers once an endianness has been established. The
//! [`header::Header`] type is the fully validated decoded record; its
//! [`header::Header::read`] entry point drives the field-by-field decode and
//! is proved to agree exactly with the specification-level decoder
//! [`header::spec_read`].

pub mod header;
pub mod reader;
