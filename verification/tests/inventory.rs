//! The slot inventory: selection and item placement.

use bevy_toolbox::inventory::Inventory;
use bevy_toolbox::items::{Item, ItemCode};

fn item(code: usize) -> Item {
    Item { code: ItemCode(code) }
}

#[test]
fn fresh_inventory_is_empty_and_unselected() {
    let inventory: Inventory<9> = Inventory::default();
    assert_eq!(inventory.selected_slot(), None);
    assert!(inventory.selected_item().is_none());
    for slot in 0..=9usize {
        assert!(inventory.get_item(slot).is_none());
    }
}

#[test]
fn put_and_get_items() {
    let mut inventory: Inventory<9> = Inventory::default();
    inventory.put_item(1, item(1));
    inventory.put_item(2, item(2));
    assert_eq!(inventory.get_item(1), Some(&item(1)));
    assert_eq!(inventory.get_item(2), Some(&item(2)));
    assert_eq!(inventory.get_item(3), None);
    // slot 0 never holds anything
    assert_eq!(inventory.get_item(0), None);
}

#[test]
fn selection_finds_the_item() {
    let mut inventory: Inventory<9> = Inventory::default();
    inventory.put_item(4, item(42));

    inventory.select_item(4);
    assert_eq!(inventory.selected_slot(), Some(4));
    assert_eq!(inventory.selected_item(), Some(&item(42)));

    // selecting an empty slot yields no item
    inventory.select_item(5);
    assert_eq!(inventory.selected_slot(), Some(5));
    assert_eq!(inventory.selected_item(), None);

    inventory.clear_selection();
    assert_eq!(inventory.selected_slot(), None);
    assert_eq!(inventory.selected_item(), None);

    // selection 0 means none
    inventory.select_item(0);
    assert_eq!(inventory.selected_slot(), None);
}

#[test]
fn remove_takes_the_item_out() {
    let mut inventory: Inventory<9> = Inventory::default();
    inventory.put_item(3, item(7));
    assert_eq!(inventory.remove_item(3), Some(item(7)));
    assert_eq!(inventory.get_item(3), None);
    assert_eq!(inventory.remove_item(3), None);
}

#[test]
fn put_replaces_what_was_there() {
    let mut inventory: Inventory<2> = Inventory::default();
    inventory.put_item(2, item(1));
    inventory.put_item(2, item(9));
    assert_eq!(inventory.get_item(2), Some(&item(9)));
    assert_eq!(inventory.get_item(1), None);
}
