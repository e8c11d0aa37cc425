//! The verified core of the network shim, a machine that bridges mutations of an
//! extruder (version 2) to an HTTP server and mirrors its live values.
use vstd::prelude::*;

pub mod http;
pub mod identity;
pub mod mode;
pub mod mutation;
pub mod shim_state;
pub mod text;
pub mod timing;

verus! {
} // verus!
