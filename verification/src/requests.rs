//! The message types of the two request channels between a window and its
//! host shell. Cross-window and window-to-shell communication is explicit
//! message passing over these channels, never shared mutable memory.

use vstd::prelude::*;

verus! {

/// A request the window sends outward to the host shell.
pub enum WindowRequest {
    /// Ask the shell to redraw the window surface.
    Redraw,
    /// Ask the shell to retitle the OS window.
    ChangeTitle(String),
    /// Ask the shell to close the window.
    Close,
}

/// A request addressed back to a window adapter by the host shell. The
/// shell layer owns the full request vocabulary; the core only carries
/// these values through its channel.
pub enum ShellRequest {
    /// Ask the receiving window to run another tick.
    Update,
}

/// The localization choice threaded into the context provider. Resolving
/// strings against it belongs to an external collaborator; the core only
/// records which locale was chosen.
pub struct Localization {
    pub language: String,
}

impl Localization {
    pub fn new(language: String) -> (r: Localization)
        ensures
            r.language == language,
    {
        Localization { language }
    }
}

} // verus!
