use vstd::prelude::*;

pub mod client;
pub mod json;
pub mod protocol;
pub mod routes;

verus! {

} // verus!
