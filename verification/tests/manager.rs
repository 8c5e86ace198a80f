use iced_tray::icon::Icon;
use iced_tray::id_source::IdSource;
use iced_tray::manager::TrayManager;
use iced_tray::runtime::{create, remove, set_icon, set_menu, set_tooltip, set_visible};
use iced_tray::tray::menu::{self, Item, Menu};
use iced_tray::tray::Settings;

#[test]
fn new_manager_has_no_trays() {
    let mut ids = IdSource::new();
    let (id, _) = create(&mut ids, Settings::default());
    let manager = TrayManager::new();
    assert!(manager.get(id).is_none());
}

#[test]
fn create_stores_settings_and_replies_with_id() {
    let mut ids = IdSource::new();
    let mut manager = TrayManager::new();
    let settings = Settings { tooltip: Some("hello".to_string()), ..Settings::default() };
    let (id, action) = create(&mut ids, settings);
    assert_eq!(manager.handle_action(action), Some(id));
    let stored = manager.get(id).expect("tray was created");
    assert_eq!(stored.tooltip.as_deref(), Some("hello"));
    assert!(stored.visible);
}

#[test]
fn remove_takes_the_tray_away_and_keeps_others() {
    let mut ids = IdSource::new();
    let mut manager = TrayManager::new();
    let (a, create_a) = create(&mut ids, Settings::default());
    let (b, create_b) = create(&mut ids, Settings::default());
    manager.handle_action(create_a);
    manager.handle_action(create_b);
    assert_eq!(manager.handle_action(remove(a)), None);
    assert!(manager.get(a).is_none());
    assert!(manager.get(b).is_some());
    // Removing again changes nothing.
    manager.handle_action(remove(a));
    assert!(manager.get(a).is_none());
    assert!(manager.get(b).is_some());
}

#[test]
fn setters_change_one_setting_of_one_tray() {
    let mut ids = IdSource::new();
    let mut manager = TrayManager::new();
    let (a, create_a) = create(&mut ids, Settings::default());
    let (b, create_b) = create(&mut ids, Settings::default());
    manager.handle_action(create_a);
    manager.handle_action(create_b);

    assert_eq!(manager.handle_action(set_visible(a, false)), None);
    assert!(!manager.get(a).unwrap().visible);
    assert!(manager.get(b).unwrap().visible);
    assert!(manager.get(a).unwrap().menu_on_right_click);

    manager.handle_action(set_tooltip(a, Some("tip".to_string())));
    assert_eq!(manager.get(a).unwrap().tooltip.as_deref(), Some("tip"));
    assert!(manager.get(b).unwrap().tooltip.is_none());
    manager.handle_action(set_tooltip(a, None));
    assert!(manager.get(a).unwrap().tooltip.is_none());

    manager.handle_action(set_icon(b, Icon { rgba: vec![0, 0, 0, 255], width: 1, height: 1 }));
    assert_eq!(manager.get(b).unwrap().icon.as_ref().unwrap().rgba, vec![0, 0, 0, 255]);
    assert!(manager.get(a).unwrap().icon.is_none());

    let item = Item::new(menu::Id::unique(&mut ids), "Quit".to_string());
    manager.handle_action(set_menu(b, Some(Menu::new(vec![item.clone()]))));
    assert_eq!(manager.get(b).unwrap().menu, Some(Menu::new(vec![item])));
    assert!(manager.get(b).unwrap().visible);
}

#[test]
fn setters_on_a_missing_tray_do_nothing() {
    let mut ids = IdSource::new();
    let mut manager = TrayManager::new();
    let (a, create_a) = create(&mut ids, Settings::default());
    let (missing, _) = create(&mut ids, Settings::default());
    manager.handle_action(create_a);
    manager.handle_action(set_visible(missing, false));
    manager.handle_action(set_tooltip(missing, Some("x".to_string())));
    assert!(manager.get(missing).is_none());
    assert!(manager.get(a).unwrap().visible);
    assert!(manager.get(a).unwrap().tooltip.is_none());
}

#[test]
fn create_again_replaces_settings() {
    let mut ids = IdSource::new();
    let mut manager = TrayManager::new();
    let (a, create_a) = create(&mut ids, Settings::default());
    manager.handle_action(create_a);
    manager.handle_action(set_visible(a, false));
    manager.handle_action(iced_tray::runtime::Action::Create(a, Settings::default()));
    assert!(manager.get(a).unwrap().visible);
}

#[test]
fn remove_after_create_leaves_no_tray() {
    let mut ids = IdSource::new();
    let mut manager = TrayManager::new();
    let (a, create_a) = create(&mut ids, Settings::default());
    manager.handle_action(create_a);
    manager.handle_action(remove(a));
    assert!(manager.get(a).is_none());
}
