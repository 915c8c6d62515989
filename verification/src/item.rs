//! The kinds of items.

use vstd::prelude::*;

verus! {

/// A kind of item. The kinds listed are those that the rules of this
/// library speak of.
#[derive(Clone, Copy, Debug, PartialEq, Eq, Structural, Hash)]
pub enum Item {
    Air,
    Stone,
    Sponge,
    GlassPane,
    EnderPearl,
    AcaciaSlab,
    AcaciaSign,
    LeatherLeggings,
    BlazePowder,
    ChainmailBoots,
    ChainmailChestplate,
    ChainmailHelmet,
    ChainmailLeggings,
    Diamond,
    DiamondBoots,
    DiamondChestplate,
    DiamondHelmet,
    DiamondHorseArmor,
    DiamondLeggings,
    Emerald,
    EmptyMap,
    FilledMap,
    GlassBottle,
    GoldIngot,
    GoldenBoots,
    GoldenChestplate,
    GoldenHelmet,
    GoldenHorseArmor,
    GoldenLeggings,
    IronBoots,
    IronChestplate,
    IronHelmet,
    IronHorseArmor,
    IronIngot,
    IronLeggings,
    LapisLazuli,
    LeatherBoots,
    LeatherChestplate,
    LeatherHelmet,
    LeatherHorseArmor,
    LingeringPotion,
    NetheriteBoots,
    NetheriteChestplate,
    NetheriteHelmet,
    NetheriteIngot,
    NetheriteLeggings,
    Paper,
    Potion,
    Saddle,
    SplashPotion,
}

/// Contains the general NBT tags.
/// * Damage to the item
/// * If the item is unbreakable
/// * A list of blocks that the item can destroy.
#[derive(Debug)]
pub struct GeneralTags {
    /// The damage done to the item.
    pub damage: Option<u32>,
    /// If the item is unbreakable or not.
    pub unbreakable: Option<bool>,
    /// List of blocks that the item can destroy in
    /// adventure mode.
    pub can_destroy: Option<Vec<String>>,
}

/// All the possible meta tag groups that an
/// `ItemStack` can have.
#[derive(Debug)]
pub enum ItemMetaTag {
    General(GeneralTags),
    Block,
    Enchantments,
    AttributeModifiers,
    PotionEffects,
    Crossbows,
    DisplayProperties,
    WrittenBooks,
    BooksAndQuills,
    PlayerHeads,
    Fireworks,
    ArmorStandsSpawnEggs,
    FishBuckets,
    Maps,
    SuspiciousStew,
    DebugSticks,
    Compasses,
}

} // verus!
