//! The mirror of native toggle state this layer has itself set.

use vstd::prelude::*;

verus! {

/// Cache of the native toggles the core manages, kept to elide redundant
/// native calls.
///
/// `None` means the toggle has never been set through this layer, so its
/// native value is unknown.
#[derive(Clone, Copy, Debug, PartialEq, Eq, Structural)]
pub struct GLState {
    /// Whether debug output is enabled, as last set by this layer.
    pub enabled_debug_output: Option<bool>,
    /// Whether synchronous debug output has been enabled by this layer.
    pub enabled_debug_output_synchronous: bool,
}

impl GLState {
    /// The state of a freshly bound context: nothing established yet.
    pub open spec fn spec_default() -> GLState {
        GLState { enabled_debug_output: None, enabled_debug_output_synchronous: false }
    }
}

impl Default for GLState {
    /// A fresh mirror: no toggle has been established yet.
    fn default() -> (r: GLState)
        ensures
            r == GLState::spec_default(),
    {
        GLState { enabled_debug_output: None, enabled_debug_output_synchronous: false }
    }
}

} // verus!
