use vstd::prelude::*;

pub mod auth;
pub mod config;
pub mod error;
pub mod gc;
pub mod migrate;
pub mod registry;
pub mod text;
pub mod tools;
pub mod types;

verus! {
} // verus!
