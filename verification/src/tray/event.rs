use vstd::prelude::*;

use super::menu;
use crate::mouse;

verus! {

/// A tray event.
#[derive(Debug, Clone, Copy, PartialEq, Eq, Structural)]
pub enum Event {
    /// The tray icon was clicked.
    IconClicked {
        /// The mouse button that was used.
        button: mouse::Button,
        /// The mouse click kind.
        kind: mouse::Kind,
    },
    /// A tray menu item was selected.
    MenuItemSelected(menu::Id),
}

} // verus!
