//! Backends for the platforms the library runs on.

pub mod windows;
