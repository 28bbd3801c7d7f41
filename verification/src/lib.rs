//! An editor-window plugin skeleton: the window handle, the messages that the
//! host's callback thread and the UI thread exchange, the relay that carries
//! them, the UI's visibility state machine, and the persisted state blob.

use vstd::prelude::*;

pub mod host;
pub mod state;
pub mod ui;

pub use crate::state::SaveState;

verus! {

/// A change of the plugin's state that the UI is told about.
#[derive(Debug, Clone, Copy, PartialEq, Eq, Structural)]
pub enum PluginStateChange {
    Param1,
}

} // verus!
