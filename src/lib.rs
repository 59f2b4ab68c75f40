//! Keeps a locally installed Neovim nightly build up to date.
//!
//! The library holds the decisions: it reads the commit identifier out of a
//! version announcement, compares the local and the remote identifiers, and
//! keeps the accounts of a streamed download. The program around it does the
//! network, process and file work and feeds the results in.
use vstd::prelude::*;

pub mod download;
pub mod error;
pub mod update;
pub mod version;

verus! {

} // verus!
