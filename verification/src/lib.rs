use vstd::prelude::*;

pub mod bridge;
pub mod config;
pub mod control;
pub mod mqtt;
pub mod protocol;
pub mod text;

verus! {

} // verus!
