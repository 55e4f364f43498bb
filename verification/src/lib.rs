//! A minimal command interpreter core: tokenization, built-in dispatch,
//! PATH-style executable resolution, and last-status tracking, all verified.
//!
//! The library is the decision engine only.  Everything that touches the
//! operating system (changing directory, probing the filesystem, spawning a
//! child process, printing) is requested from the caller through [`command::Outcome`]
//! values and answered back through the `finish_*` methods of [`shell::Shell`].

use vstd::prelude::*;

pub mod command;
pub mod errors;
pub mod laws;
pub mod shell;
pub mod resolve;
pub mod text;

verus! {

} // verus!
