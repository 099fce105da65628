//! Configuration-preset management for a tray-based API-credential switcher.
//!
//! The library models a single active configuration document, a list of named
//! credential presets, and the pure decision logic around them: deriving a
//! health status from the active configuration, matching it against the stored
//! presets, applying a preset's fields onto the configuration, and deriving
//! the ordered list of menu entries a host tray UI should render. All file and
//! window handling stays with the host program.

pub mod actions;
pub mod apply;
pub mod menu;
pub mod model;
pub mod reconcile;
pub mod status;
pub mod store;
pub mod strutil;
