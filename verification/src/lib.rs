use vstd::prelude::*;

pub mod cli;
pub mod config;
pub mod ids;
pub mod keyed;
pub mod metadata;
pub mod models;
pub mod order;
pub mod paths;
pub mod pipeline;
pub mod protocol;
pub mod sink;
pub mod text;
pub mod viewer;

verus! {

} // verus!
