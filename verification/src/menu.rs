//! The entries of the two menus, cameras and video formats, with the
//! identifier under which each is registered.

use crate::id_manager::{IdManager, LookupError};
use crate::label_order::ascending;
use vstd::prelude::*;

verus! {

/// One menu entry: the label shown, and the identifier reported when the
/// entry is chosen.
#[derive(Debug, PartialEq, Eq)]
pub struct MenuItem {
    pub name: String,
    pub id: usize,
}

/// The entries of both menus, each list in the order in which it is shown.
#[derive(Debug, PartialEq, Eq)]
pub struct Menus {
    pub cameras: Vec<MenuItem>,
    pub formats: Vec<MenuItem>,
}

/// What choosing a menu entry asks for.
#[derive(Debug, PartialEq, Eq)]
pub enum Choice {
    /// Switch to the camera of this name.
    Camera(String),
    /// Set the video format of this name.
    Format(String),
    /// Nothing: the identifier is not registered, or its name stands in
    /// neither menu.
    Nothing,
}

/// The labels as sequences of characters.
pub open spec fn labels(names: Seq<String>) -> Seq<Seq<char>> {
    names.map_values(|name: String| name@)
}

/// The labels of menu entries.
pub open spec fn item_labels(items: Seq<MenuItem>) -> Seq<Seq<char>> {
    items.map_values(|item: MenuItem| item.name@)
}

/// The registry `registry` after `names` were registered in order under the
/// identifiers `first`, `first + 1`, ...
pub open spec fn registered(
    registry: Map<nat, Seq<char>>,
    first: nat,
    names: Seq<Seq<char>>,
) -> Map<nat, Seq<char>> {
    Map::new(
        |id: nat| registry.contains_key(id) || first <= id < first + names.len(),
        |id: nat|
            if first <= id < first + names.len() {
                names[id - first]
            } else {
                registry[id]
            },
    )
}

/// Whether `items` carry the identifiers `first`, `first + 1`, ... in order.
pub open spec fn consecutive(items: Seq<MenuItem>, first: int) -> bool {
    forall|i: int| 0 <= i < items.len() ==> (#[trigger] items[i]).id == first + i
}

/// Whether a lookup of each entry's identifier gives the entry's label.
pub open spec fn found_again(items: Seq<MenuItem>, menu_ids: IdManager) -> bool {
    forall|i: int|
        0 <= i < items.len() ==> menu_ids.lookup((#[trigger] items[i]).id as nat) == Ok::<
            Seq<char>,
            LookupError,
        >(items[i].name@)
}

/// Sorts the names in place with `sort` of std's slices. The contract
/// claims what std documents of that function and of the order of strings:
/// afterwards the names ascend, compared byte by byte, which in UTF-8 is code
/// point by code point, and they are the names that were given, each as
/// often as before.
#[verifier::external_body]
fn sort_names(names: &mut Vec<String>)
    ensures
        ascending(labels(final(names)@)),
        labels(final(names)@).to_multiset() == labels(old(names)@).to_multiset(),
{
    names.sort();
}

/// Registers each of `names`, in order, and returns the menu entries.
pub fn menu_items(menu_ids: &mut IdManager, names: &Vec<String>) -> (items: Vec<MenuItem>)
    requires
        old(menu_ids).wf(),
        old(menu_ids).last_id() + names.len() <= usize::MAX,
    ensures
        final(menu_ids).wf(),
        final(menu_ids).last_id() == old(menu_ids).last_id() + names.len(),
        final(menu_ids)@ == registered(old(menu_ids)@, old(menu_ids).next_id(), labels(names@)),
        items.len() == names.len(),
        item_labels(items@) == labels(names@),
        consecutive(items@, old(menu_ids).next_id() as int),
        found_again(items@, *final(menu_ids)),
{
    let mut items: Vec<MenuItem> = Vec::new();
    let mut i: usize = 0;
    while i < names.len()
        invariant
            i <= names.len(),
            old(menu_ids).wf(),
            old(menu_ids).last_id() + names.len() <= usize::MAX,
            menu_ids.wf(),
            menu_ids.last_id() == old(menu_ids).last_id() + i,
            menu_ids@ == registered(
                old(menu_ids)@,
                old(menu_ids).next_id(),
                labels(names@).take(i as int),
            ),
            item_labels(items@) == labels(names@).take(i as int),
            consecutive(items@, old(menu_ids).next_id() as int),
        decreases names.len() - i,
    {
        let id = menu_ids.add(names[i].clone());
        items.push(MenuItem { name: names[i].clone(), id });
        proof {
            let done = labels(names@).take(i as int);
            let more = labels(names@).take(i + 1);
            assert(more =~= done.push(names[i as int]@));
            assert(item_labels(items@) =~= more);
            assert(menu_ids@ =~= registered(old(menu_ids)@, old(menu_ids).next_id(), more));
        }
        i += 1;
    }
    proof {
        assert(labels(names@).take(names.len() as int) =~= labels(names@));
    }
    items
}

/// Lays out the camera menu and the video format menu. The cameras keep the
/// order in which they are given; the formats are shown sorted. Identifiers
/// are handed out in the order shown, cameras first.
pub fn create_menu(menu_ids: &mut IdManager, cameras: &Vec<String>, formats: Vec<String>) -> (menus:
    Menus)
    requires
        old(menu_ids).wf(),
        old(menu_ids).last_id() + cameras.len() + formats.len() <= usize::MAX,
    ensures
        final(menu_ids).wf(),
        final(menu_ids).last_id() == old(menu_ids).last_id() + cameras.len() + formats.len(),
        menus.cameras.len() == cameras.len(),
        menus.formats.len() == formats.len(),
        item_labels(menus.cameras@) == labels(cameras@),
        consecutive(menus.cameras@, old(menu_ids).next_id() as int),
        consecutive(menus.formats@, old(menu_ids).next_id() + cameras.len()),
        ascending(item_labels(menus.formats@)),
        item_labels(menus.formats@).to_multiset() == labels(formats@).to_multiset(),
        found_again(menus.cameras@, *final(menu_ids)),
        found_again(menus.formats@, *final(menu_ids)),
        final(menu_ids)@ == registered(
            old(menu_ids)@,
            old(menu_ids).next_id(),
            labels(cameras@) + item_labels(menus.formats@),
        ),
{
    let camera_items = menu_items(menu_ids, cameras);
    let mut sorted = formats;
    sort_names(&mut sorted);
    proof {
        labels(sorted@).to_multiset_ensures();
        labels(formats@).to_multiset_ensures();
    }
    let format_items = menu_items(menu_ids, &sorted);
    proof {
        assert(menu_ids@ =~= registered(
            old(menu_ids)@,
            old(menu_ids).next_id(),
            labels(cameras@) + labels(sorted@),
        ));
    }
    Menus { cameras: camera_items, formats: format_items }
}

/// Whether one of the entries is labelled `name`.
fn has_label(items: &Vec<MenuItem>, name: &String) -> (found: bool)
    ensures
        found == item_labels(items@).contains(name@),
{
    let mut i: usize = 0;
    while i < items.len()
        invariant
            i <= items.len(),
            forall|j: int| 0 <= j < i ==> item_labels(items@)[j] != name@,
        decreases items.len() - i,
    {
        if items[i].name == *name {
            assert(item_labels(items@)[i as int] == name@);
            return true;
        }
        i += 1;
    }
    false
}

impl Menus {
    /// What the entry with the identifier `item_id` asks for. The name
    /// registered under the identifier decides: a name of the camera menu
    /// asks for that camera, also where the format menu holds the same name;
    /// another name of the format menu asks for that format.
    pub fn chosen(&self, menu_ids: &IdManager, item_id: usize) -> (choice: Choice)
        requires
            menu_ids.wf(),
        ensures
            match choice {
                Choice::Camera(name) => {
                    &&& menu_ids.lookup(item_id as nat) == Ok::<Seq<char>, LookupError>(name@)
                    &&& item_labels(self.cameras@).contains(name@)
                },
                Choice::Format(name) => {
                    &&& menu_ids.lookup(item_id as nat) == Ok::<Seq<char>, LookupError>(name@)
                    &&& !item_labels(self.cameras@).contains(name@)
                    &&& item_labels(self.formats@).contains(name@)
                },
                Choice::Nothing => match menu_ids.lookup(item_id as nat) {
                    Ok(name) => {
                        &&& !item_labels(self.cameras@).contains(name)
                        &&& !item_labels(self.formats@).contains(name)
                    },
                    Err(_) => true,
                },
            },
    {
        match menu_ids.get(item_id) {
            Ok(found) => {
                let name = found.to_owned();
                if has_label(&self.cameras, &name) {
                    Choice::Camera(name)
                } else if has_label(&self.formats, &name) {
                    Choice::Format(name)
                } else {
                    Choice::Nothing
                }
            },
            Err(_) => Choice::Nothing,
        }
    }
}

} // verus!
