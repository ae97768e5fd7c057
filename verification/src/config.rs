//! What the program is configured with.

use vstd::prelude::*;

verus! {

/// The settings that the program reads when it starts.
#[derive(Debug)]
pub struct Config {
    /// The secret with which the program logs in to the chat service.
    pub token: String,
}

} // verus!
