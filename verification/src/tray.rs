//! A system tray: its identifier, menu, settings and events.
pub mod event;
pub mod id;
pub mod menu;
pub mod settings;

pub use event::Event;
pub use id::Id;
pub use settings::Settings;
