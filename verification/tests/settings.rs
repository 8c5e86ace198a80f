use iced_tray::icon::Icon;
use iced_tray::id_source::IdSource;
use iced_tray::tray::menu::{Id, Item, Menu};
use iced_tray::tray::Settings;

#[test]
fn default_settings_are_visible_with_right_click_menu() {
    let settings = Settings::default();
    assert!(settings.icon.is_none());
    assert!(settings.tooltip.is_none());
    assert!(settings.visible);
    assert!(settings.menu.is_none());
    assert!(!settings.menu_on_left_click);
    assert!(settings.menu_on_right_click);
}

#[test]
fn clone_copies_every_setting() {
    let mut ids = IdSource::new();
    let settings = Settings {
        icon: Some(Icon { rgba: vec![1, 2, 3, 4], width: 1, height: 1 }),
        tooltip: Some("tip".to_string()),
        visible: false,
        menu: Some(Menu::new(vec![Item::new(Id::unique(&mut ids), "a".to_string())])),
        menu_on_left_click: true,
        menu_on_right_click: false,
    };
    let copy = settings.clone();
    assert_eq!(copy.icon, settings.icon);
    assert_eq!(copy.tooltip, settings.tooltip);
    assert_eq!(copy.visible, settings.visible);
    assert_eq!(copy.menu, settings.menu);
    assert_eq!(copy.menu_on_left_click, settings.menu_on_left_click);
    assert_eq!(copy.menu_on_right_click, settings.menu_on_right_click);
}
