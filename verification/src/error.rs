//! What can go wrong when a script is handed to the engine.

use vstd::prelude::*;

verus! {

/// A script could not be handed to the engine, or the engine refused it.
#[derive(Debug)]
pub enum DuelError {
    /// A text holds a zero byte and so cannot be passed as a C string. The
    /// field is the index of the first such byte.
    NulError(usize),
    /// The engine failed to load the script of this name.
    ScriptLoadFailure(String),
}

} // verus!
