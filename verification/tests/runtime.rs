use iced_tray::icon::Icon;
use iced_tray::id_source::IdSource;
use iced_tray::mouse::{Button, Kind};
use iced_tray::runtime::{
    create, events, remove, set_icon, set_menu, set_tooltip, set_visible, show_menu, Action,
    SubscriptionEvent,
};
use iced_tray::tray::menu;
use iced_tray::tray::{Event, Id, Settings};

#[test]
fn events_picks_tray_events() {
    let mut ids = IdSource::new();
    let tray = Id::unique(&mut ids);
    let event = Event::IconClicked { button: Button::Left, kind: Kind::Double };
    assert_eq!(events(SubscriptionEvent::Tray { tray, event }), Some((tray, event)));
    let item = menu::Id::unique(&mut ids);
    let selected = Event::MenuItemSelected(item);
    assert_eq!(
        events(SubscriptionEvent::Tray { tray, event: selected }),
        Some((tray, selected))
    );
    assert_eq!(events(SubscriptionEvent::Other), None);
}

#[test]
fn create_gives_fresh_ids() {
    let mut ids = IdSource::new();
    let (a, action_a) = create(&mut ids, Settings::default());
    let (b, action_b) = create(&mut ids, Settings::default());
    assert_ne!(a, b);
    assert_eq!(a.value(), 1);
    assert_eq!(b.value(), 2);
    assert!(matches!(action_a, Action::Create(id, _) if id == a));
    assert!(matches!(action_b, Action::Create(id, _) if id == b));
}

#[test]
fn actions_carry_their_arguments() {
    let mut ids = IdSource::new();
    let id = Id::unique(&mut ids);
    assert!(matches!(remove(id), Action::Remove(x) if x == id));
    assert!(matches!(set_visible(id, false), Action::SetVisible(x, false) if x == id));
    assert!(matches!(show_menu(id), Action::ShowMenu(x) if x == id));
    match set_tooltip(id, Some("hi".to_string())) {
        Action::SetTooltip(x, Some(t)) => {
            assert_eq!(x, id);
            assert_eq!(t, "hi");
        }
        other => panic!("unexpected {other:?}"),
    }
    match set_icon(id, Icon { rgba: vec![9, 9, 9, 9], width: 1, height: 1 }) {
        Action::SetIcon(x, icon) => {
            assert_eq!(x, id);
            assert_eq!(icon.rgba, vec![9, 9, 9, 9]);
        }
        other => panic!("unexpected {other:?}"),
    }
    assert!(matches!(set_menu(id, None), Action::SetMenu(x, None) if x == id));
}
