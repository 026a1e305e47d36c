//! Configuration lifecycle of the Scilla command-line tool: where the
//! configuration file lives, how it is decoded and encoded, and what each
//! configuration command asks of its host.
//!
//! The library performs no I/O. The host looks at the disk and the
//! environment, hands what it found to the library as plain values, and
//! carries out the requests it gets back.

pub mod commands;
pub mod config;
pub mod document;
pub mod error;
pub mod level;
pub mod path;
