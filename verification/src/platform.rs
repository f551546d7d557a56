//! The operating-system families that the pipeline distinguishes.

use vstd::prelude::*;

verus! {

/// The family of the operating system that the utility runs on. Each family
/// has its own way of giving a window the focus.
#[derive(Clone, Copy, Debug, PartialEq, Eq, Structural)]
pub enum Platform {
    /// Focus moves by joining the input queue of the foreground thread.
    Windows,
    /// Focus moves by asking the owning process to activate itself.
    MacOs,
    /// Focus moves by a client message to the root window.
    X11,
}

} // verus!
