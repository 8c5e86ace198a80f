//! Configure and interact with system trays: the actions that a program asks
//! of its trays, and the tray events that reach it.
use vstd::prelude::*;

use crate::icon::Icon;
use crate::id_source::IdSource;
use crate::tray::menu::Menu;
use crate::tray::{Event, Id, Settings};

verus! {

/// An operation to be performed on a tray.
#[derive(Debug)]
pub enum Action {
    /// Create a tray with some [`Settings`]; its [`Id`] is reported back once done.
    Create(Id, Settings),
    /// Remove a tray.
    Remove(Id),
    /// Change the tray [`Icon`].
    SetIcon(Id, Icon),
    /// Change the tray icon tooltip.
    SetTooltip(Id, Option<String>),
    /// Change visibility of the tray icon.
    SetVisible(Id, bool),
    /// Replace the tray menu.
    SetMenu(Id, Option<Menu>),
    /// Request showing the tray menu.
    ShowMenu(Id),
}

/// An event of the running application, as a subscription sees it.
#[derive(Debug)]
pub enum SubscriptionEvent {
    /// An event of a tray.
    Tray {
        /// The tray that the event concerns.
        tray: Id,
        /// What happened.
        event: Event,
    },
    /// Any event that is not a tray event.
    Other,
}

/// Picks the tray events out of the events of the running application:
/// a tray event gives the tray and what happened, any other event nothing.
pub fn events(event: SubscriptionEvent) -> (picked: Option<(Id, Event)>)
    ensures
        picked == (match event {
            SubscriptionEvent::Tray { tray, event } => Some((tray, event)),
            SubscriptionEvent::Other => None,
        }),
{
    match event {
        SubscriptionEvent::Tray { tray, event } => Some((tray, event)),
        SubscriptionEvent::Other => None,
    }
}

/// Creates a new tray with the given [`Settings`]: a fresh [`Id`] and the
/// action that creates the tray under it.
pub fn create(source: &mut IdSource, settings: Settings) -> (created: (Id, Action))
    requires
        old(source).can_issue(),
    ensures
        created.0.key() == old(source).next_key(),
        !old(source).has_issued(created.0.key()),
        final(source).has_issued(created.0.key()),
        final(source).next_key() == old(source).next_key() + 1,
        created.1 == Action::Create(created.0, settings),
{
    let id = Id::unique(source);
    (id, Action::Create(id, settings))
}

/// Removes the tray with `id`.
pub fn remove(id: Id) -> (action: Action)
    ensures
        action == Action::Remove(id),
{
    Action::Remove(id)
}

/// Sets the icon of the tray with `id`.
pub fn set_icon(id: Id, icon: Icon) -> (action: Action)
    ensures
        action == Action::SetIcon(id, icon),
{
    Action::SetIcon(id, icon)
}

/// Sets the tooltip of the tray icon with `id`.
pub fn set_tooltip(id: Id, tooltip: Option<String>) -> (action: Action)
    ensures
        action == Action::SetTooltip(id, tooltip),
{
    Action::SetTooltip(id, tooltip)
}

/// Sets the visibility of the tray icon with `id`.
pub fn set_visible(id: Id, visible: bool) -> (action: Action)
    ensures
        action == Action::SetVisible(id, visible),
{
    Action::SetVisible(id, visible)
}

/// Sets the menu of the tray with `id`.
pub fn set_menu(id: Id, menu: Option<Menu>) -> (action: Action)
    ensures
        action == Action::SetMenu(id, menu),
{
    Action::SetMenu(id, menu)
}

/// Requests showing the menu of the tray with `id`.
pub fn show_menu(id: Id) -> (action: Action)
    ensures
        action == Action::ShowMenu(id),
{
    Action::ShowMenu(id)
}

} // verus!
