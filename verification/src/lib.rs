//! A loader for managed assemblies in the CLI portable-executable format and an
//! interpreter for their intermediate-language bytecode.
//!
//! The loader turns the bytes of an image into typed metadata rows; the
//! interpreter is a step machine over those rows whose every step is total:
//! ill-formed bytecode ends in a reported fault, never in a panic.

pub mod error;
pub mod hash_vec;
pub mod interpreter;
