use vstd::prelude::*;

pub mod cli;
pub mod diagnostic;
pub mod did_change;
pub mod did_open;
pub mod did_save;
pub mod handler;
pub mod initialise;
pub mod initialised;
pub mod json;
pub mod lint;
pub mod method;
pub mod model;
pub mod publish;
pub mod pull;
pub mod reader;
pub mod writer;

verus! {

} // verus!
