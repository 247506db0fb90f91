use vstd::prelude::*;

pub mod error;
pub mod event;
pub mod platform_impl;

verus! {
} // verus!
