use vstd::prelude::*;

pub mod engine;
pub mod gateway;
pub mod laws;
pub mod session;
pub mod store;

verus! {

} // verus!
