//! The model behind a desktop application's system-tray menu: a pure builder
//! that turns a snapshot of application state into a menu tree with stable
//! identifiers, the codec between identifiers and actions, and the decision
//! of what the host does when a row is clicked.

pub mod codec;
pub mod events;
pub mod icons;
pub mod menu;
pub mod types;
