//! Decoding of native filesystem paths from their legacy wire form: a
//! sequence of fixed-width code units (bytes on POSIX-like targets, 16-bit
//! units on Windows-like targets), taken over unchanged.
pub mod decode;
pub mod native_path;
