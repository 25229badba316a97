//! Process and transport bootstrap for container shims: argument parsing,
//! listening-address derivation, the address relay line, the launcher/daemon
//! decisions and event envelopes.

use vstd::prelude::*;

pub mod address;
pub mod args;
pub mod bootstrap;
pub mod event;
pub mod serve;
pub mod text;
pub mod utils;

verus! {

} // verus!
