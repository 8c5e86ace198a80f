//! A declarative tray menu.
mod id;

use vstd::prelude::*;

pub use id::Id;

verus! {

/// A tray menu.
#[derive(Debug, PartialEq, Eq, Hash, Default)]
pub struct Menu {
    /// The menu items.
    pub items: Vec<Item>,
}

impl Menu {
    /// Creates a new [`Menu`] with the given items.
    pub fn new(items: Vec<Item>) -> (menu: Self)
        ensures
            menu.items@ == items@,
    {
        Self { items }
    }
}

/// A tray menu item.
#[derive(Debug, PartialEq, Eq, Hash)]
pub enum Item {
    /// A standard menu item.
    Standard {
        /// The menu item identifier.
        id: Id,
        /// The label of the menu item.
        label: String,
        /// Whether the menu item is enabled.
        enabled: bool,
    },
    /// A checkable menu item.
    Check {
        /// The menu item identifier.
        id: Id,
        /// The label of the menu item.
        label: String,
        /// Whether the menu item is checked.
        checked: bool,
        /// Whether the menu item is enabled.
        enabled: bool,
    },
    /// A separator.
    Separator,
    /// A submenu containing another menu tree.
    Submenu {
        /// The label of the submenu.
        label: String,
        /// The submenu.
        menu: Menu,
        /// Whether the submenu is enabled.
        enabled: bool,
    },
}

impl Item {
    /// Create a [`Standard`] menu item, enabled.
    ///
    /// [`Standard`]: Item::Standard
    pub fn new(id: Id, label: String) -> (item: Self)
        ensures
            item == (Item::Standard { id, label, enabled: true }),
    {
        Self::Standard { id, label, enabled: true }
    }

    /// Create a [`Check`] menu item, enabled.
    ///
    /// [`Check`]: Item::Check
    pub fn check(id: Id, label: String, checked: bool) -> (item: Self)
        ensures
            item == (Item::Check { id, label, checked, enabled: true }),
    {
        Self::Check { id, label, checked, enabled: true }
    }

    /// Create a [`Submenu`] menu item, enabled.
    ///
    /// [`Submenu`]: Item::Submenu
    pub fn submenu(label: String, menu: Menu) -> (item: Self)
        ensures
            item == (Item::Submenu { label, menu, enabled: true }),
    {
        Self::Submenu { label, menu, enabled: true }
    }
}

/// What a menu item is, with labels as character sequences and a submenu as
/// the sequence of what its items are.
pub enum ItemView {
    /// A standard menu item.
    Standard { id: Id, label: Seq<char>, enabled: bool },
    /// A checkable menu item.
    Check { id: Id, label: Seq<char>, checked: bool, enabled: bool },
    /// A separator.
    Separator,
    /// A submenu.
    Submenu { label: Seq<char>, menu: Seq<ItemView>, enabled: bool },
}

/// What a menu item is.
pub open spec fn item_view(item: Item) -> ItemView
    decreases item, 1int,
{
    match item {
        Item::Standard { id, label, enabled } => ItemView::Standard { id, label: label@, enabled },
        Item::Check { id, label, checked, enabled } => ItemView::Check {
            id,
            label: label@,
            checked,
            enabled,
        },
        Item::Separator => ItemView::Separator,
        Item::Submenu { label, menu, enabled } => ItemView::Submenu {
            label: label@,
            menu: items_view(menu.items@),
            enabled,
        },
    }
}

/// What a sequence of menu items is, item by item.
pub open spec fn items_view(items: Seq<Item>) -> Seq<ItemView>
    decreases items, 0int,
{
    if items.len() == 0 {
        Seq::empty()
    } else {
        items_view(items.drop_last()).push(item_view(items.last()))
    }
}

/// Appending an item appends what it is.
pub proof fn lemma_items_view_push(items: Seq<Item>, item: Item)
    ensures
        items_view(items.push(item)) == items_view(items).push(item_view(item)),
{
    assert(items.push(item).drop_last() =~= items);
}

/// Copies a menu item, submenus included.
fn clone_item(item: &Item) -> (copy: Item)
    ensures
        copy@ == item@,
    decreases item, 1int,
{
    match item {
        Item::Standard { id, label, enabled } => Item::Standard {
            id: *id,
            label: label.clone(),
            enabled: *enabled,
        },
        Item::Check { id, label, checked, enabled } => Item::Check {
            id: *id,
            label: label.clone(),
            checked: *checked,
            enabled: *enabled,
        },
        Item::Separator => Item::Separator,
        Item::Submenu { label, menu, enabled } => Item::Submenu {
            label: label.clone(),
            menu: Menu { items: clone_items(&menu.items) },
            enabled: *enabled,
        },
    }
}

/// Copies a sequence of menu items, item by item.
fn clone_items(items: &Vec<Item>) -> (copy: Vec<Item>)
    ensures
        items_view(copy@) == items_view(items@),
    decreases items, 0int,
{
    let mut copy: Vec<Item> = Vec::new();
    let mut i: usize = 0;
    while i < items.len()
        invariant
            i <= items.len(),
            items_view(copy@) == items_view(items@.take(i as int)),
        decreases items.len() - i,
    {
        proof {
            assert(decreases_to!(*items => items@[i as int]));
        }
        let next = clone_item(&items[i]);
        proof {
            lemma_items_view_push(copy@, next);
            lemma_items_view_push(items@.take(i as int), items@[i as int]);
            assert(items@.take(i as int).push(items@[i as int]) =~= items@.take(i + 1));
        }
        copy.push(next);
        i = i + 1;
    }
    assert(items@.take(items.len() as int) =~= items@);
    copy
}

impl Clone for Item {
    /// A copy of the item: it is what the item is.
    fn clone(&self) -> (copy: Self)
        ensures
            copy@ == self@,
    {
        clone_item(self)
    }
}

impl Clone for Menu {
    /// A copy of the menu: its items are what the menu's items are.
    fn clone(&self) -> (copy: Self)
        ensures
            copy@ == self@,
    {
        Menu { items: clone_items(&self.items) }
    }
}

impl View for Item {
    type V = ItemView;

    open spec fn view(&self) -> ItemView {
        item_view(*self)
    }
}

impl View for Menu {
    type V = Seq<ItemView>;

    open spec fn view(&self) -> Seq<ItemView> {
        items_view(self.items@)
    }
}

} // verus!
