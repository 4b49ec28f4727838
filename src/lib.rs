//! Runs one shell command on each node of a small cluster, one node after
//! another, over SSH with public-key authentication.
//!
//! The library holds the decisions: the command taken from the command line
//! (`command`), where the key pair lies (`credentials`), the protocol steps of
//! one node's attempt as a state machine (`attempt`), and the run over the
//! node list (`driver`), with the laws of a run proved in `laws`. The caller
//! performs the I/O each step asks for and hands back how it went.
use vstd::prelude::*;

pub mod attempt;
pub mod command;
pub mod credentials;
pub mod driver;
pub mod error;
pub mod laws;

verus! {

} // verus!
