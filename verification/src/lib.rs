//! Verified core of the Go Magic desktop shell: the decisions that the shell
//! makes around the bundled backend process, separated from the I/O that
//! carries them out.
use vstd::prelude::*;

pub mod backend;
pub mod health;
pub mod laws;
pub mod lifecycle;
pub mod links;
pub mod ports;
pub mod status;
pub mod text;

verus! {

} // verus!
