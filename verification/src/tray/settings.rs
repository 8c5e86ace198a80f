//! Configure your system tray.
use vstd::prelude::*;

use super::menu::{ItemView, Menu};
use crate::icon::{Icon, IconView};

verus! {

/// The tray settings.
#[derive(Debug)]
pub struct Settings {
    /// The tray icon.
    pub icon: Option<Icon>,
    /// The tray icon tooltip shown by the system.
    pub tooltip: Option<String>,
    /// Whether the tray icon should be visible or not.
    pub visible: bool,
    /// The tray menu.
    pub menu: Option<Menu>,
    /// Whether a left click should automatically open the tray menu.
    pub menu_on_left_click: bool,
    /// Whether a right click should automatically open the tray menu.
    pub menu_on_right_click: bool,
}

impl Settings {
    /// The default settings: no icon, tooltip or menu; visible; the menu
    /// opens on a right click and not on a left click.
    pub open spec fn spec_default() -> Settings {
        Settings {
            icon: None,
            tooltip: None,
            visible: true,
            menu: None,
            menu_on_left_click: false,
            menu_on_right_click: true,
        }
    }
}

/// What tray settings are, with the icon, tooltip and menu by what they are.
pub struct SettingsView {
    pub icon: Option<IconView>,
    pub tooltip: Option<Seq<char>>,
    pub visible: bool,
    pub menu: Option<Seq<ItemView>>,
    pub menu_on_left_click: bool,
    pub menu_on_right_click: bool,
}

impl View for Settings {
    type V = SettingsView;

    open spec fn view(&self) -> SettingsView {
        SettingsView {
            icon: match self.icon {
                Some(icon) => Some(icon@),
                None => None,
            },
            tooltip: match self.tooltip {
                Some(tooltip) => Some(tooltip@),
                None => None,
            },
            visible: self.visible,
            menu: match self.menu {
                Some(menu) => Some(menu@),
                None => None,
            },
            menu_on_left_click: self.menu_on_left_click,
            menu_on_right_click: self.menu_on_right_click,
        }
    }
}

impl Clone for Settings {
    /// A copy of the settings: it is what the settings are.
    fn clone(&self) -> (copy: Self)
        ensures
            copy@ == self@,
    {
        let icon = match &self.icon {
            Some(icon) => Some(icon.clone()),
            None => None,
        };
        let tooltip = match &self.tooltip {
            Some(tooltip) => Some(tooltip.clone()),
            None => None,
        };
        let menu = match &self.menu {
            Some(menu) => Some(menu.clone()),
            None => None,
        };
        Settings {
            icon,
            tooltip,
            visible: self.visible,
            menu,
            menu_on_left_click: self.menu_on_left_click,
            menu_on_right_click: self.menu_on_right_click,
        }
    }
}

impl Default for Settings {
    fn default() -> (settings: Self)
        ensures
            settings == Settings::spec_default(),
    {
        Self {
            icon: None,
            tooltip: None,
            visible: true,
            menu: None,
            menu_on_left_click: false,
            menu_on_right_click: true,
        }
    }
}

} // verus!
