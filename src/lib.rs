use vstd::prelude::*;

pub mod eq;
pub mod parser;
pub mod response;
pub mod stream;

verus! {

} // verus!
