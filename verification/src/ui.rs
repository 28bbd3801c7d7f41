//! The UI side of the plugin and what it exchanges with the host side.

use crate::ui::window_handle::WindowHandle;
use crate::PluginStateChange;
use vstd::prelude::*;

pub mod adapter;
pub mod relay;
pub mod window_handle;

pub use crate::ui::relay::UIHandle;

verus! {

/// Message sent from the plugin to the UI.
#[derive(Debug, Clone, Copy, PartialEq, Eq, Structural)]
pub enum UIMessage {
    /// Show the editor inside the given window, or hide it if the handle
    /// is the sentinel.
    ShowEditor(WindowHandle),
    /// The plugin's state changed.
    StateChange(PluginStateChange),
    /// Shut the UI down.
    Die,
}

/// Message sent from the UI to the plugin.
#[derive(Debug, Clone, Copy, PartialEq, Eq, Structural)]
pub enum PluginMessage {
    /// The UI's own window, which the host is to register as the editor.
    SetEditor(WindowHandle),
    /// The UI has started.
    UIInit,
}

} // verus!
