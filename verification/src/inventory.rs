//! Module for creating and modifying inventories of any type.

use crate::item::Item;
use vstd::prelude::*;

verus! {

pub type SlotIndex = usize;

// Constants representing various standard inventory slot indices
pub const SLOT_CRAFTING_OUTPUT: SlotIndex = 0;

pub const SLOT_CRAFTING_INPUT_X0_Y0: SlotIndex = 1;

pub const SLOT_CRAFTING_INPUT_X1_Y0: SlotIndex = 2;

pub const SLOT_CRAFTING_INPUT_X0_Y1: SlotIndex = 3;

pub const SLOT_CRAFTING_INPUT_X1_Y1: SlotIndex = 4;

pub const SLOT_ARMOR_HEAD: SlotIndex = 5;

pub const SLOT_ARMOR_CHEST: SlotIndex = 6;

pub const SLOT_ARMOR_LEGS: SlotIndex = 7;

pub const SLOT_ARMOR_FEET: SlotIndex = 8;

pub const SLOT_OFFHAND: SlotIndex = 45;

pub const SLOT_INVENTORY_OFFSET: SlotIndex = 9;

pub const SLOT_HOTBAR_OFFSET: SlotIndex = 36;

/// The number of slots of a player's inventory.
pub const PLAYER_INVENTORY_SIZE: u32 = 46;

/// The various types of inventories ("windows").
#[derive(Clone, Copy, Debug, PartialEq, Eq, Structural, Hash)]
pub enum InventoryType {
    Player,
    Container,
    Chest,
    CraftingTable,
    Furnace,
    Dispenser,
    EnchantingTable,
    BrewingStand,
    Villager,
    Beacon,
    Anvil,
    Hopper,
    Dropper,
    ShulkerBox,
    Horse,
}

/// Represents an item stack.
///
/// An item stack includes a type, an amount, and a bunch of properties (enchantments, etc.)
#[derive(Clone, Copy, Debug, PartialEq, Eq, Structural)]
pub struct ItemStack {
    /// The type of this item.
    pub ty: Item,
    /// The number of items in this stack.
    pub amount: u8,
}

impl ItemStack {
    pub fn new(ty: Item, amount: u8) -> (r: Self)
        ensures
            r == (ItemStack { ty, amount }),
    {
        ItemStack { ty, amount }
    }
}

/// An inventory, consisting of a vector
/// of `Slot`s and a type.
#[derive(Debug)]
pub struct Inventory {
    /// The item vector.
    ///
    /// The vector always contains an entry
    /// for each slot in the inventory, indexed
    /// by the slot IDs. When an entry is set to
    /// `None`, there is no item in the slot.
    items: Vec<Option<ItemStack>>,
    /// The type of this inventory.
    pub ty: InventoryType,
}

impl View for Inventory {
    type V = Seq<Option<ItemStack>>;

    /// What each slot holds, by slot index.
    closed spec fn view(&self) -> Seq<Option<ItemStack>> {
        self.items@
    }
}

impl Inventory {
    /// The type of this inventory.
    pub closed spec fn kind(&self) -> InventoryType {
        self.ty
    }

    /// Creates a new inventory of the given
    /// type and number of slots.
    pub fn new(ty: InventoryType, num_slots: u32) -> (r: Self)
        ensures
            r.kind() == ty,
            r@ == Seq::new(num_slots as nat, |i: int| None::<ItemStack>),
    {
        let mut items: Vec<Option<ItemStack>> = Vec::new();
        let mut i: u32 = 0;
        while i < num_slots
            invariant
                i <= num_slots,
                items@.len() == i,
                forall|j: int| 0 <= j < i ==> #[trigger] items@[j] is None,
            decreases num_slots - i,
        {
            items.push(None);
            i = i + 1;
        }
        let r = Inventory { items, ty };
        proof {
            assert(r@ =~= Seq::new(num_slots as nat, |i: int| None::<ItemStack>));
        }
        r
    }

    /// Retrieves a reference to the item at the given slot index.
    pub fn item_at(&self, index: SlotIndex) -> (r: Option<&ItemStack>)
        requires
            index < self@.len(),
        ensures
            match r {
                Some(item) => self@[index as int] == Some(*item),
                None => self@[index as int] is None,
            },
    {
        self.items[index].as_ref()
    }

    /// Retrieves a mutable reference to the item at the given slot index.
    /// What the caller leaves in it is what the slot then holds.
    pub fn item_at_mut(&mut self, index: SlotIndex) -> (r: Option<&mut ItemStack>)
        requires
            index < old(self)@.len(),
        ensures
            final(self).kind() == old(self).kind(),
            old(self)@[index as int] is None ==> r is None && final(self)@ == old(self)@,
            old(self)@[index as int] matches Some(item) ==> r is Some && *r->Some_0 == item
                && final(self)@ == old(self)@.update(index as int, Some(*final(r->Some_0))),
    {
        self.items[index].as_mut()
    }

    /// Sets the item at the given slot index.
    pub fn set_item_at(&mut self, index: SlotIndex, item: ItemStack)
        requires
            index < old(self)@.len(),
        ensures
            final(self).kind() == old(self).kind(),
            final(self)@ == old(self)@.update(index as int, Some(item)),
    {
        self.items.set(index, Some(item));
    }

    /// Clears the item at the given slot index, returning
    /// the old item.
    pub fn clear_item_at(&mut self, index: SlotIndex) -> (r: Option<ItemStack>)
        requires
            index < old(self)@.len(),
        ensures
            final(self).kind() == old(self).kind(),
            r == old(self)@[index as int],
            final(self)@ == old(self)@.update(index as int, None),
    {
        self.items[index].take()
    }

    /// Returns the number of slots in this inventory, as the 16 bits that
    /// clients are told.
    pub fn slot_count(&self) -> (r: u16)
        ensures
            r == self@.len() as u16,
            self@.len() <= u16::MAX ==> r == self@.len(),
    {
        self.items.len() as u16
    }
}

} // verus!
