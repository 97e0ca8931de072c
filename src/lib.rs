use vstd::prelude::*;

pub mod alloc_bridge;
pub mod lua_state;

verus! {

/// A position in an interpreter's value stack, as the engine numbers it.
pub type Index = libc::c_int;

} // verus!
