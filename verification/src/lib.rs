//! Lifecycle logic for a background-resident tray application.
//!
//! The crate models the three cooperating actors of such an application —
//! the OS tray/menu event source, the UI thread's event loop, and a
//! background state holder — and verifies the decisions that bind them:
//! singleton window reuse, tray click filtering, menu identity matching,
//! FIFO scheduling of UI work, and ordered teardown.

pub mod bridge;
pub mod icon;
pub mod laws;
pub mod shared;
pub mod tasks;
pub mod tray;
pub mod window;
