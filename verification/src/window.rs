//! The windows that a player clicks in.
//!
//! A window shows the slots of one or more inventories, grouped in areas.
//! A shift-click moves the items of a slot to the first area that accepts
//! them. Dragging the mouse over slots with items on the cursor paints the
//! items over the slots.

use crate::item::Item;
use vstd::prelude::*;

verus! {

/// An area of the slots of a window.
#[derive(Clone, Copy, Debug, PartialEq, Eq, Structural, Hash)]
pub enum Area {
    Storage,
    CraftingOutput,
    CraftingInput,
    Helmet,
    Chestplate,
    Leggings,
    Boots,
    Hotbar,
    Offhand,
    FurnaceIngredient,
    FurnaceFuel,
    FurnaceOutput,
    EnchantmentItem,
    EnchantmentLapis,
    BrewingBottle,
    BrewingIngredient,
    BrewingBlazePowder,
    VillagerInput,
    VillagerOutput,
    BeaconPayment,
    AnvilInput1,
    AnvilInput2,
    AnvilOutput,
    Saddle,
    HorseArmor,
    LlamaCarpet,
    CartographyMap,
    CartographyPaper,
    CartographyOutput,
    GrindstoneInput1,
    GrindstoneInput2,
    GrindstoneOutput,
    LecternBook,
    LoomBanner,
    LoomDye,
    LoomPattern,
    LoomOutput,
    StonecutterInput,
    StonecutterOutput,
}

/// Whether the given area accepts the given item for shift-click transfer.
pub open spec fn spec_will_accept(area: Area, item: Item) -> bool {
    match area {
        Area::Storage => true,
        Area::CraftingOutput => false,
        Area::CraftingInput => false,
        Area::Helmet => matches!(
            item,
            Item::LeatherHelmet
                | Item::ChainmailHelmet
                | Item::GoldenHelmet
                | Item::IronHelmet
                | Item::DiamondHelmet
                | Item::NetheriteHelmet
        ),
        Area::Chestplate => matches!(
            item,
            Item::LeatherChestplate
                | Item::ChainmailChestplate
                | Item::GoldenChestplate
                | Item::IronChestplate
                | Item::DiamondChestplate
                | Item::NetheriteChestplate
        ),
        Area::Leggings => matches!(
            item,
            Item::LeatherHelmet
                | Item::ChainmailLeggings
                | Item::GoldenLeggings
                | Item::IronLeggings
                | Item::DiamondLeggings
                | Item::NetheriteLeggings
        ),
        Area::Boots => matches!(
            item,
            Item::LeatherBoots
                | Item::ChainmailBoots
                | Item::GoldenBoots
                | Item::IronBoots
                | Item::DiamondBoots
                | Item::NetheriteBoots
        ),
        Area::Hotbar => true,
        Area::Offhand => true,
        Area::FurnaceIngredient => true,
        Area::FurnaceFuel => true,
        Area::FurnaceOutput => false,
        Area::EnchantmentItem => true,
        Area::EnchantmentLapis => item == Item::LapisLazuli,
        Area::BrewingBottle => matches!(
            item,
            Item::GlassBottle
                | Item::Potion
                | Item::SplashPotion
                | Item::LingeringPotion
        ),
        Area::BrewingIngredient => true,
        Area::BrewingBlazePowder => item == Item::BlazePowder,
        Area::VillagerInput => true,
        Area::VillagerOutput => false,
        Area::BeaconPayment => matches!(
            item,
            Item::IronIngot
                | Item::GoldIngot
                | Item::Diamond
                | Item::NetheriteIngot
                | Item::Emerald
        ),
        Area::AnvilInput1 => true,
        Area::AnvilInput2 => true,
        Area::AnvilOutput => false,
        Area::Saddle => item == Item::Saddle,
        Area::HorseArmor => matches!(
            item,
            Item::LeatherHorseArmor
                | Item::IronHorseArmor
                | Item::GoldenHorseArmor
                | Item::DiamondHorseArmor
        ),
        Area::LlamaCarpet => true,
        Area::CartographyMap => matches!(
            item,
            Item::EmptyMap
                | Item::FilledMap
        ),
        Area::CartographyPaper => item == Item::Paper,
        Area::CartographyOutput => false,
        Area::GrindstoneInput1 => true,
        Area::GrindstoneInput2 => true,
        Area::GrindstoneOutput => false,
        Area::LecternBook => true,
        Area::LoomBanner => true,
        Area::LoomDye => true,
        Area::LoomPattern => true,
        Area::LoomOutput => false,
        Area::StonecutterInput => true,
        Area::StonecutterOutput => false,
    }
}

/// Determines whether the given area will accept the given item
/// for shift-click transfer.
#[verifier::when_used_as_spec(spec_will_accept)]
pub fn will_accept(area: Area, item: Item) -> (r: bool)
    ensures
        r == spec_will_accept(area, item),
{
    match area {
        Area::Storage => true,
        Area::CraftingOutput => false,
        Area::CraftingInput => false,
        Area::Helmet => matches!(
            item,
            Item::LeatherHelmet
                | Item::ChainmailHelmet
                | Item::GoldenHelmet
                | Item::IronHelmet
                | Item::DiamondHelmet
                | Item::NetheriteHelmet
        ),
        Area::Chestplate => matches!(
            item,
            Item::LeatherChestplate
                | Item::ChainmailChestplate
                | Item::GoldenChestplate
                | Item::IronChestplate
                | Item::DiamondChestplate
                | Item::NetheriteChestplate
        ),
        Area::Leggings => matches!(
            item,
            Item::LeatherHelmet
                | Item::ChainmailLeggings
                | Item::GoldenLeggings
                | Item::IronLeggings
                | Item::DiamondLeggings
                | Item::NetheriteLeggings
        ),
        Area::Boots => matches!(
            item,
            Item::LeatherBoots
                | Item::ChainmailBoots
                | Item::GoldenBoots
                | Item::IronBoots
                | Item::DiamondBoots
                | Item::NetheriteBoots
        ),
        Area::Hotbar => true,
        Area::Offhand => true,
        Area::FurnaceIngredient => true,
        Area::FurnaceFuel => true,
        Area::FurnaceOutput => false,
        Area::EnchantmentItem => true,
        Area::EnchantmentLapis => item == Item::LapisLazuli,
        Area::BrewingBottle => matches!(
            item,
            Item::GlassBottle
                | Item::Potion
                | Item::SplashPotion
                | Item::LingeringPotion
        ),
        Area::BrewingIngredient => true,
        Area::BrewingBlazePowder => item == Item::BlazePowder,
        Area::VillagerInput => true,
        Area::VillagerOutput => false,
        Area::BeaconPayment => matches!(
            item,
            Item::IronIngot
                | Item::GoldIngot
                | Item::Diamond
                | Item::NetheriteIngot
                | Item::Emerald
        ),
        Area::AnvilInput1 => true,
        Area::AnvilInput2 => true,
        Area::AnvilOutput => false,
        Area::Saddle => item == Item::Saddle,
        Area::HorseArmor => matches!(
            item,
            Item::LeatherHorseArmor
                | Item::IronHorseArmor
                | Item::GoldenHorseArmor
                | Item::DiamondHorseArmor
        ),
        Area::LlamaCarpet => true,
        Area::CartographyMap => matches!(
            item,
            Item::EmptyMap
                | Item::FilledMap
        ),
        Area::CartographyPaper => item == Item::Paper,
        Area::CartographyOutput => false,
        Area::GrindstoneInput1 => true,
        Area::GrindstoneInput2 => true,
        Area::GrindstoneOutput => false,
        Area::LecternBook => true,
        Area::LoomBanner => true,
        Area::LoomDye => true,
        Area::LoomPattern => true,
        Area::LoomOutput => false,
        Area::StonecutterInput => true,
        Area::StonecutterOutput => false,
    }
}

/// The button of a mouse.
#[derive(Clone, Copy, Debug, PartialEq, Eq, Structural, Hash)]
pub enum Mouse {
    Left,
    Right,
}

/// The most slots that one paint operation can cover.
pub const MAX_PAINT_SLOTS: usize = 1000;

/// A paint operation covers more slots than a well-behaved client sends.
#[derive(Clone, Copy, Debug, PartialEq, Eq, Structural)]
pub struct TooManyPaintSlots;

/// State for a paint operation (left mouse or right mouse drag).
#[derive(Debug)]
pub struct PaintState {
    mouse: Mouse,
    slots: Vec<usize>,
}

impl PaintState {
    /// The button that is held.
    pub closed spec fn spec_mouse(&self) -> Mouse {
        self.mouse
    }

    /// The slots covered so far, in the order in which they were added.
    pub closed spec fn spec_slots(&self) -> Seq<usize> {
        self.slots@
    }

    pub fn new(mouse: Mouse) -> (r: Self)
        ensures
            r.spec_mouse() == mouse,
            r.spec_slots().len() == 0,
    {
        PaintState { mouse, slots: Vec::new() }
    }

    /// Adds a slot to the operation. The slot is kept also where it is one
    /// too many, and the error tells that the operation is to be given up.
    pub fn add_slot(&mut self, slot: usize) -> (r: Result<(), TooManyPaintSlots>)
        ensures
            final(self).spec_mouse() == old(self).spec_mouse(),
            final(self).spec_slots() == old(self).spec_slots().push(slot),
            r is Err <==> final(self).spec_slots().len() > MAX_PAINT_SLOTS,
    {
        self.slots.push(slot);
        if self.slots.len() > MAX_PAINT_SLOTS {
            return Err(TooManyPaintSlots);
        }
        Ok(())
    }

    /// The button that is held.
    pub fn mouse(&self) -> (r: Mouse)
        ensures
            r == self.spec_mouse(),
    {
        self.mouse
    }

    /// The slots covered so far.
    pub fn slots(&self) -> (r: &Vec<usize>)
        ensures
            r@ == self.spec_slots(),
    {
        &self.slots
    }
}

/// How many of `count` items each of `slots` slots gets when the left
/// button paints them: an equal share where there is at least one item for
/// each slot, and else one item for each of the first `count` slots.
pub open spec fn left_paint_share(count: u32, slots: int, slot: int) -> u32 {
    if count / (slots as u32) > 0 {
        count / (slots as u32)
    } else if slot < count % (slots as u32) {
        1
    } else {
        0
    }
}

/// Computes the items that each slot gets when the left button paints
/// `count` items over `slots` slots.
pub fn left_paint_shares(count: u32, slots: usize) -> (r: Vec<u32>)
    requires
        0 < slots <= u32::MAX,
    ensures
        r@.len() == slots,
        forall|i: int| 0 <= i < slots ==> #[trigger] r@[i] == left_paint_share(count, slots as int, i),
{
    let amount = count / slots as u32;
    let mut remainder = count % slots as u32;
    let mut shares: Vec<u32> = Vec::with_capacity(slots);
    let mut i: usize = 0;
    while i < slots
        invariant
            0 < slots <= u32::MAX,
            i <= slots,
            amount == count / (slots as u32),
            amount == 0 ==> remainder == if i < count % (slots as u32) {
                (count % (slots as u32) - i) as u32
            } else {
                0u32
            },
            shares@.len() == i,
            forall|j: int| 0 <= j < i ==> #[trigger] shares@[j] == left_paint_share(count, slots as int, j),
        decreases slots - i,
    {
        let share = if amount > 0 {
            amount
        } else {
            let share = if remainder < 1 {
                remainder
            } else {
                1
            };
            remainder = remainder - share;
            share
        };
        shares.push(share);
        i = i + 1;
    }
    shares
}

} // verus!
