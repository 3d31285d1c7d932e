//! A personal content library: metadata records describing owned titles,
//! together with where each title's packaged content lives (archive info)
//! and where it is currently extracted, if anywhere (deploy info), persisted
//! in a durable key-value store with backup rotation.

use vstd::prelude::*;

pub mod archiver;
pub mod backup;
pub mod codec;
pub mod deploy;
pub mod dlsite;
pub mod fsops;
pub mod laws;
pub mod paths;
pub mod record;
pub mod store;
pub mod text;
pub mod types;

verus! {

/// A two-outcome result whose failure arm carries a corrective replacement
/// value rather than an error: resolution of a stored filesystem reference
/// either yields a usable path or the value the stale field should be
/// overwritten with.
pub enum Whether<A, B> {
    This(A),
    That(B),
}

} // verus!
