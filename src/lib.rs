use vstd::prelude::*;

pub mod identity;
pub mod probe;
pub mod registry;
pub mod supervisor;
pub mod termination;

verus! {

} // verus!
