//! Keyboard keys.

use vstd::prelude::*;

verus! {

/// A keyboard key, named by its key code.
///
/// Which code stands for which key is the backend's business: the event
/// model only carries the code.
#[derive(Copy, Clone, Debug, PartialEq, Eq, Structural, Hash)]
pub struct Key {
    /// The key code.
    pub code: u32,
}

} // verus!
