//! The Windows backend.

pub mod event;
pub mod laws;
pub mod vkey;
