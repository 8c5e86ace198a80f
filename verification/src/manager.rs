//! The trays of a running program, kept by their identifiers, and the way each
//! action changes them.
use vstd::prelude::*;

use rustc_hash::{FxBuildHasher, FxHashMap};

use crate::id_source::IdSource;
use crate::runtime::Action;
use crate::tray::{Id, Settings};

verus! {

/// The hash builder of `rustc_hash`, by which its hash maps place their keys.
#[verifier::external_type_specification]
#[verifier::external_body]
pub struct ExFxBuildHasher(FxBuildHasher);

/// No trays at all.
pub open spec fn no_trays() -> Map<u64, Settings> {
    Map::empty()
}

/// The trays that a table holds: each tray's settings, by the key of its identifier.
pub uninterp spec fn tray_table(table: FxHashMap<u64, Settings>) -> Map<u64, Settings>;

/// `FxHashMap::default` (the `Default` of `std`'s `HashMap` with `FxBuildHasher`):
/// an empty table.
#[verifier::external_body]
fn table_new() -> (table: FxHashMap<u64, Settings>)
    ensures
        tray_table(table) == no_trays(),
{
    FxHashMap::default()
}

/// `HashMap::insert` on an `FxHashMap`: afterwards `key` holds `settings` and every
/// other key holds what it held; the settings that `key` held before come back.
#[verifier::external_body]
fn table_insert(table: &mut FxHashMap<u64, Settings>, key: u64, settings: Settings) -> (previous:
    Option<Settings>)
    ensures
        tray_table(*final(table)) == tray_table(*old(table)).insert(key, settings),
        previous == (if tray_table(*old(table)).contains_key(key) {
            Some(tray_table(*old(table))[key])
        } else {
            None
        }),
{
    table.insert(key, settings)
}

/// `HashMap::remove` on an `FxHashMap`: afterwards `key` holds nothing and every
/// other key holds what it held; the settings that `key` held come back.
#[verifier::external_body]
fn table_remove(table: &mut FxHashMap<u64, Settings>, key: u64) -> (removed: Option<Settings>)
    ensures
        tray_table(*final(table)) == tray_table(*old(table)).remove(key),
        removed == (if tray_table(*old(table)).contains_key(key) {
            Some(tray_table(*old(table))[key])
        } else {
            None
        }),
{
    table.remove(&key)
}

/// `HashMap::get` on an `FxHashMap`: the settings that `key` holds, if any.
#[verifier::external_body]
fn table_get(table: &FxHashMap<u64, Settings>, key: u64) -> (found: Option<&Settings>)
    ensures
        found == (if tray_table(*table).contains_key(key) {
            Some(&tray_table(*table)[key])
        } else {
            None
        }),
{
    table.get(&key)
}

/// `HashMap::get_mut` on an `FxHashMap`: where `key` holds settings, a place that
/// holds them, and what is written there is what `key` holds afterwards; where it
/// holds none, nothing, and the table stays as it was.
#[verifier::external_body]
fn table_get_mut(table: &mut FxHashMap<u64, Settings>, key: u64) -> (found: Option<
    &mut Settings,
>)
    ensures
        match found {
            Some(place) => {
                &&& tray_table(*old(table)).contains_key(key)
                &&& *place == tray_table(*old(table))[key]
                &&& tray_table(*final(table)) == tray_table(*old(table)).insert(key, *final(place))
            },
            None => {
                &&& !tray_table(*old(table)).contains_key(key)
                &&& tray_table(*final(table)) == tray_table(*old(table))
            },
        },
{
    table.get_mut(&key)
}

/// The settings with `change` applied to those that `key` holds, where it holds any;
/// every other key keeps what it holds.
pub open spec fn update_tray(
    trays: Map<u64, Settings>,
    key: u64,
    change: spec_fn(Settings) -> Settings,
) -> Map<u64, Settings> {
    if trays.contains_key(key) {
        trays.insert(key, change(trays[key]))
    } else {
        trays
    }
}

/// The trays after `action`: creating puts the settings under the new tray's key
/// (over any settings held there), removing takes the tray away, and each setter
/// changes the one setting of an existing tray and does nothing where no tray has
/// that identifier. Showing a menu changes no settings.
pub open spec fn next_trays(trays: Map<u64, Settings>, action: Action) -> Map<u64, Settings> {
    match action {
        Action::Create(id, settings) => trays.insert(id.key(), settings),
        Action::Remove(id) => trays.remove(id.key()),
        Action::SetIcon(id, icon) => update_tray(
            trays,
            id.key(),
            |s: Settings| Settings { icon: Some(icon), ..s },
        ),
        Action::SetTooltip(id, tooltip) => update_tray(
            trays,
            id.key(),
            |s: Settings| Settings { tooltip, ..s },
        ),
        Action::SetVisible(id, visible) => update_tray(
            trays,
            id.key(),
            |s: Settings| Settings { visible, ..s },
        ),
        Action::SetMenu(id, menu) => update_tray(
            trays,
            id.key(),
            |s: Settings| Settings { menu, ..s },
        ),
        Action::ShowMenu(_) => trays,
    }
}

/// What a program is told back after `action`: the identifier of a created tray,
/// and nothing after any other action.
pub open spec fn reply_to(action: Action) -> Option<Id> {
    match action {
        Action::Create(id, _) => Some(id),
        _ => None,
    }
}

/// Creating a tray always reports its identifier back, whatever its settings,
/// and no other action reports anything.
pub proof fn lemma_only_create_replies(action: Action)
    ensures
        action matches Action::Create(id, _) ==> reply_to(action) == Some(id),
        !(action is Create) ==> reply_to(action).is_none(),
        forall|id: Id, settings: Settings| reply_to(Action::Create(id, settings)) == Some(id),
{
}

/// The tray that `action` concerns.
pub open spec fn target(action: Action) -> Id {
    match action {
        Action::Create(id, _) => id,
        Action::Remove(id) => id,
        Action::SetIcon(id, _) => id,
        Action::SetTooltip(id, _) => id,
        Action::SetVisible(id, _) => id,
        Action::SetMenu(id, _) => id,
        Action::ShowMenu(id) => id,
    }
}

/// Whether `action` changes one setting of a tray.
pub open spec fn is_setter(action: Action) -> bool {
    ||| action is SetIcon
    ||| action is SetTooltip
    ||| action is SetVisible
    ||| action is SetMenu
}

/// After a tray is created, its settings are the ones it was created with,
/// whatever the trays held before.
pub proof fn lemma_created_tray_holds_its_settings(
    trays: Map<u64, Settings>,
    id: Id,
    settings: Settings,
)
    ensures
        next_trays(trays, Action::Create(id, settings)).contains_key(id.key()),
        next_trays(trays, Action::Create(id, settings))[id.key()] == settings,
{
}

/// Removing a tray that was just created leaves the other trays as they were
/// before it was created; where no tray had that identifier before, the trays are
/// exactly as before.
pub proof fn lemma_remove_undoes_create(trays: Map<u64, Settings>, id: Id, settings: Settings)
    ensures
        next_trays(next_trays(trays, Action::Create(id, settings)), Action::Remove(id))
            == trays.remove(id.key()),
        !trays.contains_key(id.key()) ==> next_trays(
            next_trays(trays, Action::Create(id, settings)),
            Action::Remove(id),
        ) == trays,
{
    assert(trays.insert(id.key(), settings).remove(id.key()) =~= trays.remove(id.key()));
    if !trays.contains_key(id.key()) {
        assert(trays.remove(id.key()) =~= trays);
    }
}

/// Where every tray was created with an identifier from `source`, a tray created
/// with the next identifier of `source` is a new tray: it replaces none.
pub proof fn lemma_fresh_tray_replaces_none(
    trays: Map<u64, Settings>,
    source: IdSource,
    id: Id,
    settings: Settings,
)
    requires
        forall|key: u64| #[trigger] trays.contains_key(key) ==> source.has_issued(key),
        id.key() == source.next_key(),
    ensures
        !trays.contains_key(id.key()),
        next_trays(trays, Action::Create(id, settings)).dom() == trays.dom().insert(id.key()),
{
    if trays.contains_key(id.key()) {
        assert(source.has_issued(id.key()));
    }
}

/// After a tray is removed there is no tray with its identifier.
pub proof fn lemma_removed_tray_is_gone(trays: Map<u64, Settings>, id: Id)
    ensures
        !next_trays(trays, Action::Remove(id)).contains_key(id.key()),
{
}

/// An action leaves every tray but the one it concerns as it was: no other tray
/// appears, disappears or changes.
pub proof fn lemma_action_keeps_other_trays(trays: Map<u64, Settings>, action: Action, key: u64)
    requires
        key != target(action).key(),
    ensures
        next_trays(trays, action).contains_key(key) == trays.contains_key(key),
        trays.contains_key(key) ==> next_trays(trays, action)[key] == trays[key],
{
}

/// A setter neither creates nor removes trays, and on an identifier that no tray
/// has it changes nothing.
pub proof fn lemma_setter_keeps_the_trays(trays: Map<u64, Settings>, action: Action)
    requires
        is_setter(action),
    ensures
        next_trays(trays, action).dom() == trays.dom(),
        !trays.contains_key(target(action).key()) ==> next_trays(trays, action) == trays,
{
    let key = target(action).key();
    if trays.contains_key(key) {
        assert(next_trays(trays, action).dom() =~= trays.dom());
    }
}

/// A setter changes only its own setting of the tray it concerns, and sets it to
/// the value it carries.
pub proof fn lemma_setter_changes_one_setting(trays: Map<u64, Settings>, action: Action)
    requires
        is_setter(action),
        trays.contains_key(target(action).key()),
    ensures
        ({
            let before = trays[target(action).key()];
            let after = next_trays(trays, action)[target(action).key()];
            &&& action matches Action::SetIcon(_, icon) ==> after == Settings {
                icon: Some(icon),
                ..before
            }
            &&& action matches Action::SetTooltip(_, tooltip) ==> after == Settings {
                tooltip,
                ..before
            }
            &&& action matches Action::SetVisible(_, visible) ==> after == Settings {
                visible,
                ..before
            }
            &&& action matches Action::SetMenu(_, menu) ==> after == Settings { menu, ..before }
        }),
{
}

/// Doing a setter twice is the same as doing it once.
pub proof fn lemma_setter_twice_is_once(trays: Map<u64, Settings>, action: Action)
    requires
        is_setter(action),
    ensures
        next_trays(next_trays(trays, action), action) == next_trays(trays, action),
{
    let key = target(action).key();
    if trays.contains_key(key) {
        assert(next_trays(next_trays(trays, action), action) =~= next_trays(trays, action));
    }
}

/// The trays of a running program, with their settings.
pub struct TrayManager {
    trays: FxHashMap<u64, Settings>,
}

impl View for TrayManager {
    type V = Map<u64, Settings>;

    /// Each tray's settings, by the key of its identifier.
    closed spec fn view(&self) -> Map<u64, Settings> {
        tray_table(self.trays)
    }
}

impl TrayManager {
    /// A manager with no trays.
    pub fn new() -> (manager: Self)
        ensures
            manager@ == no_trays(),
    {
        Self { trays: table_new() }
    }

    /// Performs `action` on the trays. Creating a tray hands back its identifier,
    /// to be reported to whoever asked for it.
    ///
    /// Showing a tray menu is not done by this manager: it must not be asked.
    pub fn handle_action(&mut self, action: Action) -> (reply: Option<Id>)
        requires
            !(action is ShowMenu),
        ensures
            final(self)@ == next_trays(old(self)@, action),
            reply == reply_to(action),
            action matches Action::Create(id, settings) ==> {
                &&& reply == Some(id)
                &&& final(self)@ == old(self)@.insert(id.key(), settings)
            },
            action matches Action::Remove(id) ==> final(self)@ == old(self)@.remove(id.key()),
            !(action is Create) ==> reply.is_none(),
    {
        match action {
            Action::Create(id, settings) => {
                let _ = table_insert(&mut self.trays, id.value(), settings);
                Some(id)
            },
            Action::Remove(id) => {
                let _ = table_remove(&mut self.trays, id.value());
                None
            },
            Action::SetIcon(id, icon) => {
                if let Some(settings) = table_get_mut(&mut self.trays, id.value()) {
                    settings.icon = Some(icon);
                }
                None
            },
            Action::SetTooltip(id, tooltip) => {
                if let Some(settings) = table_get_mut(&mut self.trays, id.value()) {
                    settings.tooltip = tooltip;
                }
                None
            },
            Action::SetVisible(id, visible) => {
                if let Some(settings) = table_get_mut(&mut self.trays, id.value()) {
                    settings.visible = visible;
                }
                None
            },
            Action::SetMenu(id, menu) => {
                if let Some(settings) = table_get_mut(&mut self.trays, id.value()) {
                    settings.menu = menu;
                }
                None
            },
            Action::ShowMenu(_) => None,
        }
    }

    /// The settings of the tray with `id`, if there is such a tray.
    pub fn get(&self, id: Id) -> (found: Option<&Settings>)
        ensures
            found == (if self@.contains_key(id.key()) {
                Some(&self@[id.key()])
            } else {
                None
            }),
    {
        table_get(&self.trays, id.value())
    }
}

} // verus!
