//! Data-fetch orchestration and navigation state for a terminal block explorer.
//!
//! The library holds the state that the user interface reads and the rules by
//! which navigation input and fetch results change it. Network access, terminal
//! drawing and argument handling live with the program that uses it.
use vstd::prelude::*;

pub mod types;
pub mod widget;
pub mod route;
pub mod ens;
pub mod batch;
pub mod parse;
pub mod network;
pub mod fee;
pub mod app;

verus! {

} // verus!
