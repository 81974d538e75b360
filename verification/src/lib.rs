//! Startup composition for a desktop application shell.
//!
//! The application attaches three capability plugins (auto-update, shell
//! access, process control) to a builder in a fixed order and then hands
//! control to the framework's run loop. The framework and its plugins are
//! opaque collaborators; what this library holds and proves is the
//! composition itself: which plugins are registered, in what order, which
//! steps startup performs, and the fail-fast policy once the run call
//! comes back.

pub mod bootstrap;
pub mod builder;
pub mod plugins;
