//! Declarative system tray: menus, settings, events, the actions that
//! change a tray, and the manager that keeps the trays of a program.
pub mod icon;
pub mod id_source;
pub mod mouse;
pub mod runtime;
pub mod tray;
pub mod manager;
