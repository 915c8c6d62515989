use feather::inventory::{Inventory, InventoryType, ItemStack};
use feather::item::Item;

#[test]
fn test_inventory() {
    let mut inv = Inventory::new(InventoryType::Chest, 36);
    assert_eq!(inv.slot_count(), 36);

    inv.set_item_at(0, ItemStack::new(Item::Air, 0));

    let item = inv.item_at(0).unwrap();
    assert_eq!(item.ty, Item::Air);
    assert_eq!(item.amount, 0);

    let item = inv.item_at_mut(0).unwrap();
    item.ty = Item::Sponge;
    assert_eq!(inv.item_at(0).unwrap().ty, Item::Sponge);

    inv.clear_item_at(0);
    assert!(inv.item_at(0).is_none());
}

#[test]
fn clear_returns_the_old_item() {
    let mut inv = Inventory::new(InventoryType::Player, 46);
    assert!(inv.item_at(45).is_none());
    inv.set_item_at(45, ItemStack::new(Item::Diamond, 3));
    assert_eq!(inv.clear_item_at(45), Some(ItemStack::new(Item::Diamond, 3)));
    assert_eq!(inv.clear_item_at(45), None);
}
