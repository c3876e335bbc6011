//! Decision logic of a native desktop shell that hosts an embedded web view:
//! startup-file handoff, the application menu and its event routing, the
//! window-title synchronization workaround, and the renderer-compositing
//! environment toggle.

pub mod envinit;
pub mod handoff;
pub mod menu;
pub mod router;
pub mod title;
