//! Verified decision logic of the floating usage bar that docks beside the
//! Codex desktop window: opacity mapping, window-style flag updates, docking
//! geometry and recognition of the Codex window.

pub mod opacity;
pub mod text;
pub mod codex;
pub mod style;
pub mod layout;
pub mod dock;
