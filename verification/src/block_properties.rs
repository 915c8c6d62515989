//! Which block kinds carry which state property.

use crate::blocks::{BlockId, BlockKind};
use vstd::prelude::*;

verus! {

impl BlockId {
    /// Whether the kind of this block carries the `age_0_15` property.
    pub open spec fn spec_has_age_0_15(self) -> bool {
        matches!(
            self.spec_kind(),
            BlockKind::Fire | BlockKind::Cactus | BlockKind::SugarCane
        )
    }

    /// Determines whether or not a block has the `age_0_15` property.
    #[verifier::when_used_as_spec(spec_has_age_0_15)]
    pub fn has_age_0_15(self) -> (r: bool)
        ensures
            r == self.spec_has_age_0_15(),
    {
        match self.kind() {
            BlockKind::Fire | BlockKind::Cactus | BlockKind::SugarCane => true,
            _ => false,
        }
    }

    /// Whether the kind of this block carries the `age_0_2` property.
    pub open spec fn spec_has_age_0_2(self) -> bool {
        matches!(
            self.spec_kind(),
            BlockKind::Cocoa
        )
    }

    /// Determines whether or not a block has the `age_0_2` property.
    #[verifier::when_used_as_spec(spec_has_age_0_2)]
    pub fn has_age_0_2(self) -> (r: bool)
        ensures
            r == self.spec_has_age_0_2(),
    {
        match self.kind() {
            BlockKind::Cocoa => true,
            _ => false,
        }
    }

    /// Whether the kind of this block carries the `age_0_25` property.
    pub open spec fn spec_has_age_0_25(self) -> bool {
        matches!(
            self.spec_kind(),
            BlockKind::Kelp
        )
    }

    /// Determines whether or not a block has the `age_0_25` property.
    #[verifier::when_used_as_spec(spec_has_age_0_25)]
    pub fn has_age_0_25(self) -> (r: bool)
        ensures
            r == self.spec_has_age_0_25(),
    {
        match self.kind() {
            BlockKind::Kelp => true,
            _ => false,
        }
    }

    /// Whether the kind of this block carries the `age_0_3` property.
    pub open spec fn spec_has_age_0_3(self) -> bool {
        matches!(
            self.spec_kind(),
            BlockKind::NetherWart | BlockKind::Beetroots | BlockKind::FrostedIce
        )
    }

    /// Determines whether or not a block has the `age_0_3` property.
    #[verifier::when_used_as_spec(spec_has_age_0_3)]
    pub fn has_age_0_3(self) -> (r: bool)
        ensures
            r == self.spec_has_age_0_3(),
    {
        match self.kind() {
            BlockKind::NetherWart | BlockKind::Beetroots | BlockKind::FrostedIce => true,
            _ => false,
        }
    }

    /// Whether the kind of this block carries the `age_0_5` property.
    pub open spec fn spec_has_age_0_5(self) -> bool {
        matches!(
            self.spec_kind(),
            BlockKind::ChorusFlower
        )
    }

    /// Determines whether or not a block has the `age_0_5` property.
    #[verifier::when_used_as_spec(spec_has_age_0_5)]
    pub fn has_age_0_5(self) -> (r: bool)
        ensures
            r == self.spec_has_age_0_5(),
    {
        match self.kind() {
            BlockKind::ChorusFlower => true,
            _ => false,
        }
    }

    /// Whether the kind of this block carries the `age_0_7` property.
    pub open spec fn spec_has_age_0_7(self) -> bool {
        matches!(
            self.spec_kind(),
            BlockKind::Wheat
            | BlockKind::PumpkinStem
            | BlockKind::MelonStem
            | BlockKind::Carrots
            | BlockKind::Potatoes
        )
    }

    /// Determines whether or not a block has the `age_0_7` property.
    #[verifier::when_used_as_spec(spec_has_age_0_7)]
    pub fn has_age_0_7(self) -> (r: bool)
        ensures
            r == self.spec_has_age_0_7(),
    {
        match self.kind() {
            BlockKind::Wheat
            | BlockKind::PumpkinStem
            | BlockKind::MelonStem
            | BlockKind::Carrots
            | BlockKind::Potatoes => true,
            _ => false,
        }
    }

    /// Whether the kind of this block carries the `attached` property.
    pub open spec fn spec_has_attached(self) -> bool {
        matches!(
            self.spec_kind(),
            BlockKind::TripwireHook | BlockKind::Tripwire
        )
    }

    /// Determines whether or not a block has the `attached` property.
    #[verifier::when_used_as_spec(spec_has_attached)]
    pub fn has_attached(self) -> (r: bool)
        ensures
            r == self.spec_has_attached(),
    {
        match self.kind() {
            BlockKind::TripwireHook | BlockKind::Tripwire => true,
            _ => false,
        }
    }

    /// Whether the kind of this block carries the `axis_xyz` property.
    pub open spec fn spec_has_axis_xyz(self) -> bool {
        matches!(
            self.spec_kind(),
            BlockKind::OakLog
            | BlockKind::SpruceLog
            | BlockKind::BirchLog
            | BlockKind::JungleLog
            | BlockKind::AcaciaLog
            | BlockKind::DarkOakLog
            | BlockKind::StrippedSpruceLog
            | BlockKind::StrippedBirchLog
            | BlockKind::StrippedJungleLog
            | BlockKind::StrippedAcaciaLog
            | BlockKind::StrippedDarkOakLog
            | BlockKind::StrippedOakLog
            | BlockKind::OakWood
            | BlockKind::SpruceWood
            | BlockKind::BirchWood
            | BlockKind::JungleWood
            | BlockKind::AcaciaWood
            | BlockKind::DarkOakWood
            | BlockKind::StrippedOakWood
            | BlockKind::StrippedSpruceWood
            | BlockKind::StrippedBirchWood
            | BlockKind::StrippedJungleWood
            | BlockKind::StrippedAcaciaWood
            | BlockKind::StrippedDarkOakWood
            | BlockKind::QuartzPillar
            | BlockKind::HayBlock
            | BlockKind::PurpurPillar
            | BlockKind::BoneBlock
        )
    }

    /// Determines whether or not a block has the `axis_xyz` property.
    #[verifier::when_used_as_spec(spec_has_axis_xyz)]
    pub fn has_axis_xyz(self) -> (r: bool)
        ensures
            r == self.spec_has_axis_xyz(),
    {
        match self.kind() {
            BlockKind::OakLog
            | BlockKind::SpruceLog
            | BlockKind::BirchLog
            | BlockKind::JungleLog
            | BlockKind::AcaciaLog
            | BlockKind::DarkOakLog
            | BlockKind::StrippedSpruceLog
            | BlockKind::StrippedBirchLog
            | BlockKind::StrippedJungleLog
            | BlockKind::StrippedAcaciaLog
            | BlockKind::StrippedDarkOakLog
            | BlockKind::StrippedOakLog
            | BlockKind::OakWood
            | BlockKind::SpruceWood
            | BlockKind::BirchWood
            | BlockKind::JungleWood
            | BlockKind::AcaciaWood
            | BlockKind::DarkOakWood
            | BlockKind::StrippedOakWood
            | BlockKind::StrippedSpruceWood
            | BlockKind::StrippedBirchWood
            | BlockKind::StrippedJungleWood
            | BlockKind::StrippedAcaciaWood
            | BlockKind::StrippedDarkOakWood
            | BlockKind::QuartzPillar
            | BlockKind::HayBlock
            | BlockKind::PurpurPillar
            | BlockKind::BoneBlock => true,
            _ => false,
        }
    }

    /// Whether the kind of this block carries the `axis_xz` property.
    pub open spec fn spec_has_axis_xz(self) -> bool {
        matches!(
            self.spec_kind(),
            BlockKind::NetherPortal
        )
    }

    /// Determines whether or not a block has the `axis_xz` property.
    #[verifier::when_used_as_spec(spec_has_axis_xz)]
    pub fn has_axis_xz(self) -> (r: bool)
        ensures
            r == self.spec_has_axis_xz(),
    {
        match self.kind() {
            BlockKind::NetherPortal => true,
            _ => false,
        }
    }

    /// Whether the kind of this block carries the `bites` property.
    pub open spec fn spec_has_bites(self) -> bool {
        matches!(
            self.spec_kind(),
            BlockKind::Cake
        )
    }

    /// Determines whether or not a block has the `bites` property.
    #[verifier::when_used_as_spec(spec_has_bites)]
    pub fn has_bites(self) -> (r: bool)
        ensures
            r == self.spec_has_bites(),
    {
        match self.kind() {
            BlockKind::Cake => true,
            _ => false,
        }
    }

    /// Whether the kind of this block carries the `cauldron_level` property.
    pub open spec fn spec_has_cauldron_level(self) -> bool {
        matches!(
            self.spec_kind(),
            BlockKind::Cauldron
        )
    }

    /// Determines whether or not a block has the `cauldron_level` property.
    #[verifier::when_used_as_spec(spec_has_cauldron_level)]
    pub fn has_cauldron_level(self) -> (r: bool)
        ensures
            r == self.spec_has_cauldron_level(),
    {
        match self.kind() {
            BlockKind::Cauldron => true,
            _ => false,
        }
    }

    /// Whether the kind of this block carries the `chest_kind` property.
    pub open spec fn spec_has_chest_kind(self) -> bool {
        matches!(
            self.spec_kind(),
            BlockKind::Chest | BlockKind::TrappedChest
        )
    }

    /// Determines whether or not a block has the `chest_kind` property.
    #[verifier::when_used_as_spec(spec_has_chest_kind)]
    pub fn has_chest_kind(self) -> (r: bool)
        ensures
            r == self.spec_has_chest_kind(),
    {
        match self.kind() {
            BlockKind::Chest | BlockKind::TrappedChest => true,
            _ => false,
        }
    }

    /// Whether the kind of this block carries the `comparator_mode` property.
    pub open spec fn spec_has_comparator_mode(self) -> bool {
        matches!(
            self.spec_kind(),
            BlockKind::Comparator
        )
    }

    /// Determines whether or not a block has the `comparator_mode` property.
    #[verifier::when_used_as_spec(spec_has_comparator_mode)]
    pub fn has_comparator_mode(self) -> (r: bool)
        ensures
            r == self.spec_has_comparator_mode(),
    {
        match self.kind() {
            BlockKind::Comparator => true,
            _ => false,
        }
    }

    /// Whether the kind of this block carries the `conditional` property.
    pub open spec fn spec_has_conditional(self) -> bool {
        matches!(
            self.spec_kind(),
            BlockKind::CommandBlock
            | BlockKind::RepeatingCommandBlock
            | BlockKind::ChainCommandBlock
        )
    }

    /// Determines whether or not a block has the `conditional` property.
    #[verifier::when_used_as_spec(spec_has_conditional)]
    pub fn has_conditional(self) -> (r: bool)
        ensures
            r == self.spec_has_conditional(),
    {
        match self.kind() {
            BlockKind::CommandBlock
            | BlockKind::RepeatingCommandBlock
            | BlockKind::ChainCommandBlock => true,
            _ => false,
        }
    }

    /// Whether the kind of this block carries the `delay` property.
    pub open spec fn spec_has_delay(self) -> bool {
        matches!(
            self.spec_kind(),
            BlockKind::Repeater
        )
    }

    /// Determines whether or not a block has the `delay` property.
    #[verifier::when_used_as_spec(spec_has_delay)]
    pub fn has_delay(self) -> (r: bool)
        ensures
            r == self.spec_has_delay(),
    {
        match self.kind() {
            BlockKind::Repeater => true,
            _ => false,
        }
    }

    /// Whether the kind of this block carries the `disarmed` property.
    pub open spec fn spec_has_disarmed(self) -> bool {
        matches!(
            self.spec_kind(),
            BlockKind::Tripwire
        )
    }

    /// Determines whether or not a block has the `disarmed` property.
    #[verifier::when_used_as_spec(spec_has_disarmed)]
    pub fn has_disarmed(self) -> (r: bool)
        ensures
            r == self.spec_has_disarmed(),
    {
        match self.kind() {
            BlockKind::Tripwire => true,
            _ => false,
        }
    }

    /// Whether the kind of this block carries the `distance` property.
    pub open spec fn spec_has_distance(self) -> bool {
        matches!(
            self.spec_kind(),
            BlockKind::OakLeaves
            | BlockKind::SpruceLeaves
            | BlockKind::BirchLeaves
            | BlockKind::JungleLeaves
            | BlockKind::AcaciaLeaves
            | BlockKind::DarkOakLeaves
        )
    }

    /// Determines whether or not a block has the `distance` property.
    #[verifier::when_used_as_spec(spec_has_distance)]
    pub fn has_distance(self) -> (r: bool)
        ensures
            r == self.spec_has_distance(),
    {
        match self.kind() {
            BlockKind::OakLeaves
            | BlockKind::SpruceLeaves
            | BlockKind::BirchLeaves
            | BlockKind::JungleLeaves
            | BlockKind::AcaciaLeaves
            | BlockKind::DarkOakLeaves => true,
            _ => false,
        }
    }

    /// Whether the kind of this block carries the `down` property.
    pub open spec fn spec_has_down(self) -> bool {
        matches!(
            self.spec_kind(),
            BlockKind::BrownMushroomBlock
            | BlockKind::RedMushroomBlock
            | BlockKind::MushroomStem
            | BlockKind::ChorusPlant
        )
    }

    /// Determines whether or not a block has the `down` property.
    #[verifier::when_used_as_spec(spec_has_down)]
    pub fn has_down(self) -> (r: bool)
        ensures
            r == self.spec_has_down(),
    {
        match self.kind() {
            BlockKind::BrownMushroomBlock
            | BlockKind::RedMushroomBlock
            | BlockKind::MushroomStem
            | BlockKind::ChorusPlant => true,
            _ => false,
        }
    }

    /// Whether the kind of this block carries the `drag` property.
    pub open spec fn spec_has_drag(self) -> bool {
        matches!(
            self.spec_kind(),
            BlockKind::BubbleColumn
        )
    }

    /// Determines whether or not a block has the `drag` property.
    #[verifier::when_used_as_spec(spec_has_drag)]
    pub fn has_drag(self) -> (r: bool)
        ensures
            r == self.spec_has_drag(),
    {
        match self.kind() {
            BlockKind::BubbleColumn => true,
            _ => false,
        }
    }

    /// Whether the kind of this block carries the `east_connected` property.
    pub open spec fn spec_has_east_connected(self) -> bool {
        matches!(
            self.spec_kind(),
            BlockKind::Fire
            | BlockKind::OakFence
            | BlockKind::BrownMushroomBlock
            | BlockKind::RedMushroomBlock
            | BlockKind::MushroomStem
            | BlockKind::IronBars
            | BlockKind::GlassPane
            | BlockKind::Vine
            | BlockKind::NetherBrickFence
            | BlockKind::Tripwire
            | BlockKind::CobblestoneWall
            | BlockKind::MossyCobblestoneWall
            | BlockKind::WhiteStainedGlassPane
            | BlockKind::OrangeStainedGlassPane
            | BlockKind::MagentaStainedGlassPane
            | BlockKind::LightBlueStainedGlassPane
            | BlockKind::YellowStainedGlassPane
            | BlockKind::LimeStainedGlassPane
            | BlockKind::PinkStainedGlassPane
            | BlockKind::GrayStainedGlassPane
            | BlockKind::LightGrayStainedGlassPane
            | BlockKind::CyanStainedGlassPane
            | BlockKind::PurpleStainedGlassPane
            | BlockKind::BlueStainedGlassPane
            | BlockKind::BrownStainedGlassPane
            | BlockKind::GreenStainedGlassPane
            | BlockKind::RedStainedGlassPane
            | BlockKind::BlackStainedGlassPane
            | BlockKind::SpruceFence
            | BlockKind::BirchFence
            | BlockKind::JungleFence
            | BlockKind::AcaciaFence
            | BlockKind::DarkOakFence
            | BlockKind::ChorusPlant
        )
    }

    /// Determines whether or not a block has the `east_connected` property.
    #[verifier::when_used_as_spec(spec_has_east_connected)]
    pub fn has_east_connected(self) -> (r: bool)
        ensures
            r == self.spec_has_east_connected(),
    {
        match self.kind() {
            BlockKind::Fire
            | BlockKind::OakFence
            | BlockKind::BrownMushroomBlock
            | BlockKind::RedMushroomBlock
            | BlockKind::MushroomStem
            | BlockKind::IronBars
            | BlockKind::GlassPane
            | BlockKind::Vine
            | BlockKind::NetherBrickFence
            | BlockKind::Tripwire
            | BlockKind::CobblestoneWall
            | BlockKind::MossyCobblestoneWall
            | BlockKind::WhiteStainedGlassPane
            | BlockKind::OrangeStainedGlassPane
            | BlockKind::MagentaStainedGlassPane
            | BlockKind::LightBlueStainedGlassPane
            | BlockKind::YellowStainedGlassPane
            | BlockKind::LimeStainedGlassPane
            | BlockKind::PinkStainedGlassPane
            | BlockKind::GrayStainedGlassPane
            | BlockKind::LightGrayStainedGlassPane
            | BlockKind::CyanStainedGlassPane
            | BlockKind::PurpleStainedGlassPane
            | BlockKind::BlueStainedGlassPane
            | BlockKind::BrownStainedGlassPane
            | BlockKind::GreenStainedGlassPane
            | BlockKind::RedStainedGlassPane
            | BlockKind::BlackStainedGlassPane
            | BlockKind::SpruceFence
            | BlockKind::BirchFence
            | BlockKind::JungleFence
            | BlockKind::AcaciaFence
            | BlockKind::DarkOakFence
            | BlockKind::ChorusPlant => true,
            _ => false,
        }
    }

    /// Whether the kind of this block carries the `east_wire` property.
    pub open spec fn spec_has_east_wire(self) -> bool {
        matches!(
            self.spec_kind(),
            BlockKind::RedstoneWire
        )
    }

    /// Determines whether or not a block has the `east_wire` property.
    #[verifier::when_used_as_spec(spec_has_east_wire)]
    pub fn has_east_wire(self) -> (r: bool)
        ensures
            r == self.spec_has_east_wire(),
    {
        match self.kind() {
            BlockKind::RedstoneWire => true,
            _ => false,
        }
    }

    /// Whether the kind of this block carries the `eggs` property.
    pub open spec fn spec_has_eggs(self) -> bool {
        matches!(
            self.spec_kind(),
            BlockKind::TurtleEgg
        )
    }

    /// Determines whether or not a block has the `eggs` property.
    #[verifier::when_used_as_spec(spec_has_eggs)]
    pub fn has_eggs(self) -> (r: bool)
        ensures
            r == self.spec_has_eggs(),
    {
        match self.kind() {
            BlockKind::TurtleEgg => true,
            _ => false,
        }
    }

    /// Whether the kind of this block carries the `enabled` property.
    pub open spec fn spec_has_enabled(self) -> bool {
        matches!(
            self.spec_kind(),
            BlockKind::Hopper
        )
    }

    /// Determines whether or not a block has the `enabled` property.
    #[verifier::when_used_as_spec(spec_has_enabled)]
    pub fn has_enabled(self) -> (r: bool)
        ensures
            r == self.spec_has_enabled(),
    {
        match self.kind() {
            BlockKind::Hopper => true,
            _ => false,
        }
    }

    /// Whether the kind of this block carries the `extended` property.
    pub open spec fn spec_has_extended(self) -> bool {
        matches!(
            self.spec_kind(),
            BlockKind::StickyPiston | BlockKind::Piston
        )
    }

    /// Determines whether or not a block has the `extended` property.
    #[verifier::when_used_as_spec(spec_has_extended)]
    pub fn has_extended(self) -> (r: bool)
        ensures
            r == self.spec_has_extended(),
    {
        match self.kind() {
            BlockKind::StickyPiston | BlockKind::Piston => true,
            _ => false,
        }
    }

    /// Whether the kind of this block carries the `eye` property.
    pub open spec fn spec_has_eye(self) -> bool {
        matches!(
            self.spec_kind(),
            BlockKind::EndPortalFrame
        )
    }

    /// Determines whether or not a block has the `eye` property.
    #[verifier::when_used_as_spec(spec_has_eye)]
    pub fn has_eye(self) -> (r: bool)
        ensures
            r == self.spec_has_eye(),
    {
        match self.kind() {
            BlockKind::EndPortalFrame => true,
            _ => false,
        }
    }

    /// Whether the kind of this block carries the `face` property.
    pub open spec fn spec_has_face(self) -> bool {
        matches!(
            self.spec_kind(),
            BlockKind::Lever
            | BlockKind::StoneButton
            | BlockKind::OakButton
            | BlockKind::SpruceButton
            | BlockKind::BirchButton
            | BlockKind::JungleButton
            | BlockKind::AcaciaButton
            | BlockKind::DarkOakButton
        )
    }

    /// Determines whether or not a block has the `face` property.
    #[verifier::when_used_as_spec(spec_has_face)]
    pub fn has_face(self) -> (r: bool)
        ensures
            r == self.spec_has_face(),
    {
        match self.kind() {
            BlockKind::Lever
            | BlockKind::StoneButton
            | BlockKind::OakButton
            | BlockKind::SpruceButton
            | BlockKind::BirchButton
            | BlockKind::JungleButton
            | BlockKind::AcaciaButton
            | BlockKind::DarkOakButton => true,
            _ => false,
        }
    }

    /// Whether the kind of this block carries the `facing_cardinal` property.
    pub open spec fn spec_has_facing_cardinal(self) -> bool {
        matches!(
            self.spec_kind(),
            BlockKind::WhiteBed
            | BlockKind::OrangeBed
            | BlockKind::MagentaBed
            | BlockKind::LightBlueBed
            | BlockKind::YellowBed
            | BlockKind::LimeBed
            | BlockKind::PinkBed
            | BlockKind::GrayBed
            | BlockKind::LightGrayBed
            | BlockKind::CyanBed
            | BlockKind::PurpleBed
            | BlockKind::BlueBed
            | BlockKind::BrownBed
            | BlockKind::GreenBed
            | BlockKind::RedBed
            | BlockKind::BlackBed
            | BlockKind::WallTorch
            | BlockKind::OakStairs
            | BlockKind::Chest
            | BlockKind::Furnace
            | BlockKind::OakDoor
            | BlockKind::Ladder
            | BlockKind::CobblestoneStairs
            | BlockKind::WallSign
            | BlockKind::Lever
            | BlockKind::IronDoor
            | BlockKind::RedstoneWallTorch
            | BlockKind::StoneButton
            | BlockKind::CarvedPumpkin
            | BlockKind::JackOLantern
            | BlockKind::Repeater
            | BlockKind::OakTrapdoor
            | BlockKind::SpruceTrapdoor
            | BlockKind::BirchTrapdoor
            | BlockKind::JungleTrapdoor
            | BlockKind::AcaciaTrapdoor
            | BlockKind::DarkOakTrapdoor
            | BlockKind::AttachedPumpkinStem
            | BlockKind::AttachedMelonStem
            | BlockKind::OakFenceGate
            | BlockKind::BrickStairs
            | BlockKind::StoneBrickStairs
            | BlockKind::NetherBrickStairs
            | BlockKind::EndPortalFrame
            | BlockKind::Cocoa
            | BlockKind::SandstoneStairs
            | BlockKind::EnderChest
            | BlockKind::TripwireHook
            | BlockKind::SpruceStairs
            | BlockKind::BirchStairs
            | BlockKind::JungleStairs
            | BlockKind::OakButton
            | BlockKind::SpruceButton
            | BlockKind::BirchButton
            | BlockKind::JungleButton
            | BlockKind::AcaciaButton
            | BlockKind::DarkOakButton
            | BlockKind::SkeletonWallSkull
            | BlockKind::WitherSkeletonWallSkull
            | BlockKind::ZombieWallHead
            | BlockKind::PlayerWallHead
            | BlockKind::CreeperWallHead
            | BlockKind::DragonWallHead
            | BlockKind::Anvil
            | BlockKind::ChippedAnvil
            | BlockKind::DamagedAnvil
            | BlockKind::TrappedChest
            | BlockKind::Comparator
            | BlockKind::QuartzStairs
            | BlockKind::AcaciaStairs
            | BlockKind::DarkOakStairs
            | BlockKind::IronTrapdoor
            | BlockKind::PrismarineStairs
            | BlockKind::PrismarineBrickStairs
            | BlockKind::DarkPrismarineStairs
            | BlockKind::WhiteWallBanner
            | BlockKind::OrangeWallBanner
            | BlockKind::MagentaWallBanner
            | BlockKind::LightBlueWallBanner
            | BlockKind::YellowWallBanner
            | BlockKind::LimeWallBanner
            | BlockKind::PinkWallBanner
            | BlockKind::GrayWallBanner
            | BlockKind::LightGrayWallBanner
            | BlockKind::CyanWallBanner
            | BlockKind::PurpleWallBanner
            | BlockKind::BlueWallBanner
            | BlockKind::BrownWallBanner
            | BlockKind::GreenWallBanner
            | BlockKind::RedWallBanner
            | BlockKind::BlackWallBanner
            | BlockKind::RedSandstoneStairs
            | BlockKind::SpruceFenceGate
            | BlockKind::BirchFenceGate
            | BlockKind::JungleFenceGate
            | BlockKind::AcaciaFenceGate
            | BlockKind::DarkOakFenceGate
            | BlockKind::SpruceDoor
            | BlockKind::BirchDoor
            | BlockKind::JungleDoor
            | BlockKind::AcaciaDoor
            | BlockKind::DarkOakDoor
            | BlockKind::PurpurStairs
            | BlockKind::WhiteGlazedTerracotta
            | BlockKind::OrangeGlazedTerracotta
            | BlockKind::MagentaGlazedTerracotta
            | BlockKind::LightBlueGlazedTerracotta
            | BlockKind::YellowGlazedTerracotta
            | BlockKind::LimeGlazedTerracotta
            | BlockKind::PinkGlazedTerracotta
            | BlockKind::GrayGlazedTerracotta
            | BlockKind::LightGrayGlazedTerracotta
            | BlockKind::CyanGlazedTerracotta
            | BlockKind::PurpleGlazedTerracotta
            | BlockKind::BlueGlazedTerracotta
            | BlockKind::BrownGlazedTerracotta
            | BlockKind::GreenGlazedTerracotta
            | BlockKind::RedGlazedTerracotta
            | BlockKind::BlackGlazedTerracotta
            | BlockKind::DeadTubeCoralWallFan
            | BlockKind::DeadBrainCoralWallFan
            | BlockKind::DeadBubbleCoralWallFan
            | BlockKind::DeadFireCoralWallFan
            | BlockKind::DeadHornCoralWallFan
            | BlockKind::TubeCoralWallFan
            | BlockKind::BrainCoralWallFan
            | BlockKind::BubbleCoralWallFan
            | BlockKind::FireCoralWallFan
            | BlockKind::HornCoralWallFan
        )
    }

    /// Determines whether or not a block has the `facing_cardinal` property.
    #[verifier::when_used_as_spec(spec_has_facing_cardinal)]
    pub fn has_facing_cardinal(self) -> (r: bool)
        ensures
            r == self.spec_has_facing_cardinal(),
    {
        match self.kind() {
            BlockKind::WhiteBed
            | BlockKind::OrangeBed
            | BlockKind::MagentaBed
            | BlockKind::LightBlueBed
            | BlockKind::YellowBed
            | BlockKind::LimeBed
            | BlockKind::PinkBed
            | BlockKind::GrayBed
            | BlockKind::LightGrayBed
            | BlockKind::CyanBed
            | BlockKind::PurpleBed
            | BlockKind::BlueBed
            | BlockKind::BrownBed
            | BlockKind::GreenBed
            | BlockKind::RedBed
            | BlockKind::BlackBed
            | BlockKind::WallTorch
            | BlockKind::OakStairs
            | BlockKind::Chest
            | BlockKind::Furnace
            | BlockKind::OakDoor
            | BlockKind::Ladder
            | BlockKind::CobblestoneStairs
            | BlockKind::WallSign
            | BlockKind::Lever
            | BlockKind::IronDoor
            | BlockKind::RedstoneWallTorch
            | BlockKind::StoneButton
            | BlockKind::CarvedPumpkin
            | BlockKind::JackOLantern
            | BlockKind::Repeater
            | BlockKind::OakTrapdoor
            | BlockKind::SpruceTrapdoor
            | BlockKind::BirchTrapdoor
            | BlockKind::JungleTrapdoor
            | BlockKind::AcaciaTrapdoor
            | BlockKind::DarkOakTrapdoor
            | BlockKind::AttachedPumpkinStem
            | BlockKind::AttachedMelonStem
            | BlockKind::OakFenceGate
            | BlockKind::BrickStairs
            | BlockKind::StoneBrickStairs
            | BlockKind::NetherBrickStairs
            | BlockKind::EndPortalFrame
            | BlockKind::Cocoa
            | BlockKind::SandstoneStairs
            | BlockKind::EnderChest
            | BlockKind::TripwireHook
            | BlockKind::SpruceStairs
            | BlockKind::BirchStairs
            | BlockKind::JungleStairs
            | BlockKind::OakButton
            | BlockKind::SpruceButton
            | BlockKind::BirchButton
            | BlockKind::JungleButton
            | BlockKind::AcaciaButton
            | BlockKind::DarkOakButton
            | BlockKind::SkeletonWallSkull
            | BlockKind::WitherSkeletonWallSkull
            | BlockKind::ZombieWallHead
            | BlockKind::PlayerWallHead
            | BlockKind::CreeperWallHead
            | BlockKind::DragonWallHead
            | BlockKind::Anvil
            | BlockKind::ChippedAnvil
            | BlockKind::DamagedAnvil
            | BlockKind::TrappedChest
            | BlockKind::Comparator
            | BlockKind::QuartzStairs
            | BlockKind::AcaciaStairs
            | BlockKind::DarkOakStairs
            | BlockKind::IronTrapdoor
            | BlockKind::PrismarineStairs
            | BlockKind::PrismarineBrickStairs
            | BlockKind::DarkPrismarineStairs
            | BlockKind::WhiteWallBanner
            | BlockKind::OrangeWallBanner
            | BlockKind::MagentaWallBanner
            | BlockKind::LightBlueWallBanner
            | BlockKind::YellowWallBanner
            | BlockKind::LimeWallBanner
            | BlockKind::PinkWallBanner
            | BlockKind::GrayWallBanner
            | BlockKind::LightGrayWallBanner
            | BlockKind::CyanWallBanner
            | BlockKind::PurpleWallBanner
            | BlockKind::BlueWallBanner
            | BlockKind::BrownWallBanner
            | BlockKind::GreenWallBanner
            | BlockKind::RedWallBanner
            | BlockKind::BlackWallBanner
            | BlockKind::RedSandstoneStairs
            | BlockKind::SpruceFenceGate
            | BlockKind::BirchFenceGate
            | BlockKind::JungleFenceGate
            | BlockKind::AcaciaFenceGate
            | BlockKind::DarkOakFenceGate
            | BlockKind::SpruceDoor
            | BlockKind::BirchDoor
            | BlockKind::JungleDoor
            | BlockKind::AcaciaDoor
            | BlockKind::DarkOakDoor
            | BlockKind::PurpurStairs
            | BlockKind::WhiteGlazedTerracotta
            | BlockKind::OrangeGlazedTerracotta
            | BlockKind::MagentaGlazedTerracotta
            | BlockKind::LightBlueGlazedTerracotta
            | BlockKind::YellowGlazedTerracotta
            | BlockKind::LimeGlazedTerracotta
            | BlockKind::PinkGlazedTerracotta
            | BlockKind::GrayGlazedTerracotta
            | BlockKind::LightGrayGlazedTerracotta
            | BlockKind::CyanGlazedTerracotta
            | BlockKind::PurpleGlazedTerracotta
            | BlockKind::BlueGlazedTerracotta
            | BlockKind::BrownGlazedTerracotta
            | BlockKind::GreenGlazedTerracotta
            | BlockKind::RedGlazedTerracotta
            | BlockKind::BlackGlazedTerracotta
            | BlockKind::DeadTubeCoralWallFan
            | BlockKind::DeadBrainCoralWallFan
            | BlockKind::DeadBubbleCoralWallFan
            | BlockKind::DeadFireCoralWallFan
            | BlockKind::DeadHornCoralWallFan
            | BlockKind::TubeCoralWallFan
            | BlockKind::BrainCoralWallFan
            | BlockKind::BubbleCoralWallFan
            | BlockKind::FireCoralWallFan
            | BlockKind::HornCoralWallFan => true,
            _ => false,
        }
    }

    /// Whether the kind of this block carries the `facing_cardinal_and_down` property.
    pub open spec fn spec_has_facing_cardinal_and_down(self) -> bool {
        matches!(
            self.spec_kind(),
            BlockKind::Hopper
        )
    }

    /// Determines whether or not a block has the `facing_cardinal_and_down` property.
    #[verifier::when_used_as_spec(spec_has_facing_cardinal_and_down)]
    pub fn has_facing_cardinal_and_down(self) -> (r: bool)
        ensures
            r == self.spec_has_facing_cardinal_and_down(),
    {
        match self.kind() {
            BlockKind::Hopper => true,
            _ => false,
        }
    }

    /// Whether the kind of this block carries the `facing_cubic` property.
    pub open spec fn spec_has_facing_cubic(self) -> bool {
        matches!(
            self.spec_kind(),
            BlockKind::Dispenser
            | BlockKind::StickyPiston
            | BlockKind::Piston
            | BlockKind::PistonHead
            | BlockKind::MovingPiston
            | BlockKind::CommandBlock
            | BlockKind::Dropper
            | BlockKind::EndRod
            | BlockKind::RepeatingCommandBlock
            | BlockKind::ChainCommandBlock
            | BlockKind::Observer
            | BlockKind::ShulkerBox
            | BlockKind::WhiteShulkerBox
            | BlockKind::OrangeShulkerBox
            | BlockKind::MagentaShulkerBox
            | BlockKind::LightBlueShulkerBox
            | BlockKind::YellowShulkerBox
            | BlockKind::LimeShulkerBox
            | BlockKind::PinkShulkerBox
            | BlockKind::GrayShulkerBox
            | BlockKind::LightGrayShulkerBox
            | BlockKind::CyanShulkerBox
            | BlockKind::PurpleShulkerBox
            | BlockKind::BlueShulkerBox
            | BlockKind::BrownShulkerBox
            | BlockKind::GreenShulkerBox
            | BlockKind::RedShulkerBox
            | BlockKind::BlackShulkerBox
        )
    }

    /// Determines whether or not a block has the `facing_cubic` property.
    #[verifier::when_used_as_spec(spec_has_facing_cubic)]
    pub fn has_facing_cubic(self) -> (r: bool)
        ensures
            r == self.spec_has_facing_cubic(),
    {
        match self.kind() {
            BlockKind::Dispenser
            | BlockKind::StickyPiston
            | BlockKind::Piston
            | BlockKind::PistonHead
            | BlockKind::MovingPiston
            | BlockKind::CommandBlock
            | BlockKind::Dropper
            | BlockKind::EndRod
            | BlockKind::RepeatingCommandBlock
            | BlockKind::ChainCommandBlock
            | BlockKind::Observer
            | BlockKind::ShulkerBox
            | BlockKind::WhiteShulkerBox
            | BlockKind::OrangeShulkerBox
            | BlockKind::MagentaShulkerBox
            | BlockKind::LightBlueShulkerBox
            | BlockKind::YellowShulkerBox
            | BlockKind::LimeShulkerBox
            | BlockKind::PinkShulkerBox
            | BlockKind::GrayShulkerBox
            | BlockKind::LightGrayShulkerBox
            | BlockKind::CyanShulkerBox
            | BlockKind::PurpleShulkerBox
            | BlockKind::BlueShulkerBox
            | BlockKind::BrownShulkerBox
            | BlockKind::GreenShulkerBox
            | BlockKind::RedShulkerBox
            | BlockKind::BlackShulkerBox => true,
            _ => false,
        }
    }

    /// Whether the kind of this block carries the `half_top_bottom` property.
    pub open spec fn spec_has_half_top_bottom(self) -> bool {
        matches!(
            self.spec_kind(),
            BlockKind::OakStairs
            | BlockKind::CobblestoneStairs
            | BlockKind::OakTrapdoor
            | BlockKind::SpruceTrapdoor
            | BlockKind::BirchTrapdoor
            | BlockKind::JungleTrapdoor
            | BlockKind::AcaciaTrapdoor
            | BlockKind::DarkOakTrapdoor
            | BlockKind::BrickStairs
            | BlockKind::StoneBrickStairs
            | BlockKind::NetherBrickStairs
            | BlockKind::SandstoneStairs
            | BlockKind::SpruceStairs
            | BlockKind::BirchStairs
            | BlockKind::JungleStairs
            | BlockKind::QuartzStairs
            | BlockKind::AcaciaStairs
            | BlockKind::DarkOakStairs
            | BlockKind::IronTrapdoor
            | BlockKind::PrismarineStairs
            | BlockKind::PrismarineBrickStairs
            | BlockKind::DarkPrismarineStairs
            | BlockKind::RedSandstoneStairs
            | BlockKind::PurpurStairs
        )
    }

    /// Determines whether or not a block has the `half_top_bottom` property.
    #[verifier::when_used_as_spec(spec_has_half_top_bottom)]
    pub fn has_half_top_bottom(self) -> (r: bool)
        ensures
            r == self.spec_has_half_top_bottom(),
    {
        match self.kind() {
            BlockKind::OakStairs
            | BlockKind::CobblestoneStairs
            | BlockKind::OakTrapdoor
            | BlockKind::SpruceTrapdoor
            | BlockKind::BirchTrapdoor
            | BlockKind::JungleTrapdoor
            | BlockKind::AcaciaTrapdoor
            | BlockKind::DarkOakTrapdoor
            | BlockKind::BrickStairs
            | BlockKind::StoneBrickStairs
            | BlockKind::NetherBrickStairs
            | BlockKind::SandstoneStairs
            | BlockKind::SpruceStairs
            | BlockKind::BirchStairs
            | BlockKind::JungleStairs
            | BlockKind::QuartzStairs
            | BlockKind::AcaciaStairs
            | BlockKind::DarkOakStairs
            | BlockKind::IronTrapdoor
            | BlockKind::PrismarineStairs
            | BlockKind::PrismarineBrickStairs
            | BlockKind::DarkPrismarineStairs
            | BlockKind::RedSandstoneStairs
            | BlockKind::PurpurStairs => true,
            _ => false,
        }
    }

    /// Whether the kind of this block carries the `half_upper_lower` property.
    pub open spec fn spec_has_half_upper_lower(self) -> bool {
        matches!(
            self.spec_kind(),
            BlockKind::TallSeagrass
            | BlockKind::OakDoor
            | BlockKind::IronDoor
            | BlockKind::Sunflower
            | BlockKind::Lilac
            | BlockKind::RoseBush
            | BlockKind::Peony
            | BlockKind::TallGrass
            | BlockKind::LargeFern
            | BlockKind::SpruceDoor
            | BlockKind::BirchDoor
            | BlockKind::JungleDoor
            | BlockKind::AcaciaDoor
            | BlockKind::DarkOakDoor
        )
    }

    /// Determines whether or not a block has the `half_upper_lower` property.
    #[verifier::when_used_as_spec(spec_has_half_upper_lower)]
    pub fn has_half_upper_lower(self) -> (r: bool)
        ensures
            r == self.spec_has_half_upper_lower(),
    {
        match self.kind() {
            BlockKind::TallSeagrass
            | BlockKind::OakDoor
            | BlockKind::IronDoor
            | BlockKind::Sunflower
            | BlockKind::Lilac
            | BlockKind::RoseBush
            | BlockKind::Peony
            | BlockKind::TallGrass
            | BlockKind::LargeFern
            | BlockKind::SpruceDoor
            | BlockKind::BirchDoor
            | BlockKind::JungleDoor
            | BlockKind::AcaciaDoor
            | BlockKind::DarkOakDoor => true,
            _ => false,
        }
    }

    /// Whether the kind of this block carries the `has_bottle_0` property.
    pub open spec fn spec_has_has_bottle_0(self) -> bool {
        matches!(
            self.spec_kind(),
            BlockKind::BrewingStand
        )
    }

    /// Determines whether or not a block has the `has_bottle_0` property.
    #[verifier::when_used_as_spec(spec_has_has_bottle_0)]
    pub fn has_has_bottle_0(self) -> (r: bool)
        ensures
            r == self.spec_has_has_bottle_0(),
    {
        match self.kind() {
            BlockKind::BrewingStand => true,
            _ => false,
        }
    }

    /// Whether the kind of this block carries the `has_bottle_1` property.
    pub open spec fn spec_has_has_bottle_1(self) -> bool {
        matches!(
            self.spec_kind(),
            BlockKind::BrewingStand
        )
    }

    /// Determines whether or not a block has the `has_bottle_1` property.
    #[verifier::when_used_as_spec(spec_has_has_bottle_1)]
    pub fn has_has_bottle_1(self) -> (r: bool)
        ensures
            r == self.spec_has_has_bottle_1(),
    {
        match self.kind() {
            BlockKind::BrewingStand => true,
            _ => false,
        }
    }

    /// Whether the kind of this block carries the `has_bottle_2` property.
    pub open spec fn spec_has_has_bottle_2(self) -> bool {
        matches!(
            self.spec_kind(),
            BlockKind::BrewingStand
        )
    }

    /// Determines whether or not a block has the `has_bottle_2` property.
    #[verifier::when_used_as_spec(spec_has_has_bottle_2)]
    pub fn has_has_bottle_2(self) -> (r: bool)
        ensures
            r == self.spec_has_has_bottle_2(),
    {
        match self.kind() {
            BlockKind::BrewingStand => true,
            _ => false,
        }
    }

    /// Whether the kind of this block carries the `has_record` property.
    pub open spec fn spec_has_has_record(self) -> bool {
        matches!(
            self.spec_kind(),
            BlockKind::Jukebox
        )
    }

    /// Determines whether or not a block has the `has_record` property.
    #[verifier::when_used_as_spec(spec_has_has_record)]
    pub fn has_has_record(self) -> (r: bool)
        ensures
            r == self.spec_has_has_record(),
    {
        match self.kind() {
            BlockKind::Jukebox => true,
            _ => false,
        }
    }

    /// Whether the kind of this block carries the `hatch` property.
    pub open spec fn spec_has_hatch(self) -> bool {
        matches!(
            self.spec_kind(),
            BlockKind::TurtleEgg
        )
    }

    /// Determines whether or not a block has the `hatch` property.
    #[verifier::when_used_as_spec(spec_has_hatch)]
    pub fn has_hatch(self) -> (r: bool)
        ensures
            r == self.spec_has_hatch(),
    {
        match self.kind() {
            BlockKind::TurtleEgg => true,
            _ => false,
        }
    }

    /// Whether the kind of this block carries the `hinge` property.
    pub open spec fn spec_has_hinge(self) -> bool {
        matches!(
            self.spec_kind(),
            BlockKind::OakDoor
            | BlockKind::IronDoor
            | BlockKind::SpruceDoor
            | BlockKind::BirchDoor
            | BlockKind::JungleDoor
            | BlockKind::AcaciaDoor
            | BlockKind::DarkOakDoor
        )
    }

    /// Determines whether or not a block has the `hinge` property.
    #[verifier::when_used_as_spec(spec_has_hinge)]
    pub fn has_hinge(self) -> (r: bool)
        ensures
            r == self.spec_has_hinge(),
    {
        match self.kind() {
            BlockKind::OakDoor
            | BlockKind::IronDoor
            | BlockKind::SpruceDoor
            | BlockKind::BirchDoor
            | BlockKind::JungleDoor
            | BlockKind::AcaciaDoor
            | BlockKind::DarkOakDoor => true,
            _ => false,
        }
    }

    /// Whether the kind of this block carries the `in_wall` property.
    pub open spec fn spec_has_in_wall(self) -> bool {
        matches!(
            self.spec_kind(),
            BlockKind::OakFenceGate
            | BlockKind::SpruceFenceGate
            | BlockKind::BirchFenceGate
            | BlockKind::JungleFenceGate
            | BlockKind::AcaciaFenceGate
            | BlockKind::DarkOakFenceGate
        )
    }

    /// Determines whether or not a block has the `in_wall` property.
    #[verifier::when_used_as_spec(spec_has_in_wall)]
    pub fn has_in_wall(self) -> (r: bool)
        ensures
            r == self.spec_has_in_wall(),
    {
        match self.kind() {
            BlockKind::OakFenceGate
            | BlockKind::SpruceFenceGate
            | BlockKind::BirchFenceGate
            | BlockKind::JungleFenceGate
            | BlockKind::AcaciaFenceGate
            | BlockKind::DarkOakFenceGate => true,
            _ => false,
        }
    }

    /// Whether the kind of this block carries the `instrument` property.
    pub open spec fn spec_has_instrument(self) -> bool {
        matches!(
            self.spec_kind(),
            BlockKind::NoteBlock
        )
    }

    /// Determines whether or not a block has the `instrument` property.
    #[verifier::when_used_as_spec(spec_has_instrument)]
    pub fn has_instrument(self) -> (r: bool)
        ensures
            r == self.spec_has_instrument(),
    {
        match self.kind() {
            BlockKind::NoteBlock => true,
            _ => false,
        }
    }

    /// Whether the kind of this block carries the `inverted` property.
    pub open spec fn spec_has_inverted(self) -> bool {
        matches!(
            self.spec_kind(),
            BlockKind::DaylightDetector
        )
    }

    /// Determines whether or not a block has the `inverted` property.
    #[verifier::when_used_as_spec(spec_has_inverted)]
    pub fn has_inverted(self) -> (r: bool)
        ensures
            r == self.spec_has_inverted(),
    {
        match self.kind() {
            BlockKind::DaylightDetector => true,
            _ => false,
        }
    }

    /// Whether the kind of this block carries the `layers` property.
    pub open spec fn spec_has_layers(self) -> bool {
        matches!(
            self.spec_kind(),
            BlockKind::Snow
        )
    }

    /// Determines whether or not a block has the `layers` property.
    #[verifier::when_used_as_spec(spec_has_layers)]
    pub fn has_layers(self) -> (r: bool)
        ensures
            r == self.spec_has_layers(),
    {
        match self.kind() {
            BlockKind::Snow => true,
            _ => false,
        }
    }

    /// Whether the kind of this block carries the `lit` property.
    pub open spec fn spec_has_lit(self) -> bool {
        matches!(
            self.spec_kind(),
            BlockKind::Furnace
            | BlockKind::RedstoneOre
            | BlockKind::RedstoneTorch
            | BlockKind::RedstoneWallTorch
            | BlockKind::RedstoneLamp
        )
    }

    /// Determines whether or not a block has the `lit` property.
    #[verifier::when_used_as_spec(spec_has_lit)]
    pub fn has_lit(self) -> (r: bool)
        ensures
            r == self.spec_has_lit(),
    {
        match self.kind() {
            BlockKind::Furnace
            | BlockKind::RedstoneOre
            | BlockKind::RedstoneTorch
            | BlockKind::RedstoneWallTorch
            | BlockKind::RedstoneLamp => true,
            _ => false,
        }
    }

    /// Whether the kind of this block carries the `locked` property.
    pub open spec fn spec_has_locked(self) -> bool {
        matches!(
            self.spec_kind(),
            BlockKind::Repeater
        )
    }

    /// Determines whether or not a block has the `locked` property.
    #[verifier::when_used_as_spec(spec_has_locked)]
    pub fn has_locked(self) -> (r: bool)
        ensures
            r == self.spec_has_locked(),
    {
        match self.kind() {
            BlockKind::Repeater => true,
            _ => false,
        }
    }

    /// Whether the kind of this block carries the `moisture` property.
    pub open spec fn spec_has_moisture(self) -> bool {
        matches!(
            self.spec_kind(),
            BlockKind::Farmland
        )
    }

    /// Determines whether or not a block has the `moisture` property.
    #[verifier::when_used_as_spec(spec_has_moisture)]
    pub fn has_moisture(self) -> (r: bool)
        ensures
            r == self.spec_has_moisture(),
    {
        match self.kind() {
            BlockKind::Farmland => true,
            _ => false,
        }
    }

    /// Whether the kind of this block carries the `north_connected` property.
    pub open spec fn spec_has_north_connected(self) -> bool {
        matches!(
            self.spec_kind(),
            BlockKind::Fire
            | BlockKind::OakFence
            | BlockKind::BrownMushroomBlock
            | BlockKind::RedMushroomBlock
            | BlockKind::MushroomStem
            | BlockKind::IronBars
            | BlockKind::GlassPane
            | BlockKind::Vine
            | BlockKind::NetherBrickFence
            | BlockKind::Tripwire
            | BlockKind::CobblestoneWall
            | BlockKind::MossyCobblestoneWall
            | BlockKind::WhiteStainedGlassPane
            | BlockKind::OrangeStainedGlassPane
            | BlockKind::MagentaStainedGlassPane
            | BlockKind::LightBlueStainedGlassPane
            | BlockKind::YellowStainedGlassPane
            | BlockKind::LimeStainedGlassPane
            | BlockKind::PinkStainedGlassPane
            | BlockKind::GrayStainedGlassPane
            | BlockKind::LightGrayStainedGlassPane
            | BlockKind::CyanStainedGlassPane
            | BlockKind::PurpleStainedGlassPane
            | BlockKind::BlueStainedGlassPane
            | BlockKind::BrownStainedGlassPane
            | BlockKind::GreenStainedGlassPane
            | BlockKind::RedStainedGlassPane
            | BlockKind::BlackStainedGlassPane
            | BlockKind::SpruceFence
            | BlockKind::BirchFence
            | BlockKind::JungleFence
            | BlockKind::AcaciaFence
            | BlockKind::DarkOakFence
            | BlockKind::ChorusPlant
        )
    }

    /// Determines whether or not a block has the `north_connected` property.
    #[verifier::when_used_as_spec(spec_has_north_connected)]
    pub fn has_north_connected(self) -> (r: bool)
        ensures
            r == self.spec_has_north_connected(),
    {
        match self.kind() {
            BlockKind::Fire
            | BlockKind::OakFence
            | BlockKind::BrownMushroomBlock
            | BlockKind::RedMushroomBlock
            | BlockKind::MushroomStem
            | BlockKind::IronBars
            | BlockKind::GlassPane
            | BlockKind::Vine
            | BlockKind::NetherBrickFence
            | BlockKind::Tripwire
            | BlockKind::CobblestoneWall
            | BlockKind::MossyCobblestoneWall
            | BlockKind::WhiteStainedGlassPane
            | BlockKind::OrangeStainedGlassPane
            | BlockKind::MagentaStainedGlassPane
            | BlockKind::LightBlueStainedGlassPane
            | BlockKind::YellowStainedGlassPane
            | BlockKind::LimeStainedGlassPane
            | BlockKind::PinkStainedGlassPane
            | BlockKind::GrayStainedGlassPane
            | BlockKind::LightGrayStainedGlassPane
            | BlockKind::CyanStainedGlassPane
            | BlockKind::PurpleStainedGlassPane
            | BlockKind::BlueStainedGlassPane
            | BlockKind::BrownStainedGlassPane
            | BlockKind::GreenStainedGlassPane
            | BlockKind::RedStainedGlassPane
            | BlockKind::BlackStainedGlassPane
            | BlockKind::SpruceFence
            | BlockKind::BirchFence
            | BlockKind::JungleFence
            | BlockKind::AcaciaFence
            | BlockKind::DarkOakFence
            | BlockKind::ChorusPlant => true,
            _ => false,
        }
    }

    /// Whether the kind of this block carries the `north_wire` property.
    pub open spec fn spec_has_north_wire(self) -> bool {
        matches!(
            self.spec_kind(),
            BlockKind::RedstoneWire
        )
    }

    /// Determines whether or not a block has the `north_wire` property.
    #[verifier::when_used_as_spec(spec_has_north_wire)]
    pub fn has_north_wire(self) -> (r: bool)
        ensures
            r == self.spec_has_north_wire(),
    {
        match self.kind() {
            BlockKind::RedstoneWire => true,
            _ => false,
        }
    }

    /// Whether the kind of this block carries the `note` property.
    pub open spec fn spec_has_note(self) -> bool {
        matches!(
            self.spec_kind(),
            BlockKind::NoteBlock
        )
    }

    /// Determines whether or not a block has the `note` property.
    #[verifier::when_used_as_spec(spec_has_note)]
    pub fn has_note(self) -> (r: bool)
        ensures
            r == self.spec_has_note(),
    {
        match self.kind() {
            BlockKind::NoteBlock => true,
            _ => false,
        }
    }

    /// Whether the kind of this block carries the `occupied` property.
    pub open spec fn spec_has_occupied(self) -> bool {
        matches!(
            self.spec_kind(),
            BlockKind::WhiteBed
            | BlockKind::OrangeBed
            | BlockKind::MagentaBed
            | BlockKind::LightBlueBed
            | BlockKind::YellowBed
            | BlockKind::LimeBed
            | BlockKind::PinkBed
            | BlockKind::GrayBed
            | BlockKind::LightGrayBed
            | BlockKind::CyanBed
            | BlockKind::PurpleBed
            | BlockKind::BlueBed
            | BlockKind::BrownBed
            | BlockKind::GreenBed
            | BlockKind::RedBed
            | BlockKind::BlackBed
        )
    }

    /// Determines whether or not a block has the `occupied` property.
    #[verifier::when_used_as_spec(spec_has_occupied)]
    pub fn has_occupied(self) -> (r: bool)
        ensures
            r == self.spec_has_occupied(),
    {
        match self.kind() {
            BlockKind::WhiteBed
            | BlockKind::OrangeBed
            | BlockKind::MagentaBed
            | BlockKind::LightBlueBed
            | BlockKind::YellowBed
            | BlockKind::LimeBed
            | BlockKind::PinkBed
            | BlockKind::GrayBed
            | BlockKind::LightGrayBed
            | BlockKind::CyanBed
            | BlockKind::PurpleBed
            | BlockKind::BlueBed
            | BlockKind::BrownBed
            | BlockKind::GreenBed
            | BlockKind::RedBed
            | BlockKind::BlackBed => true,
            _ => false,
        }
    }

    /// Whether the kind of this block carries the `open` property.
    pub open spec fn spec_has_open(self) -> bool {
        matches!(
            self.spec_kind(),
            BlockKind::OakDoor
            | BlockKind::IronDoor
            | BlockKind::OakTrapdoor
            | BlockKind::SpruceTrapdoor
            | BlockKind::BirchTrapdoor
            | BlockKind::JungleTrapdoor
            | BlockKind::AcaciaTrapdoor
            | BlockKind::DarkOakTrapdoor
            | BlockKind::OakFenceGate
            | BlockKind::IronTrapdoor
            | BlockKind::SpruceFenceGate
            | BlockKind::BirchFenceGate
            | BlockKind::JungleFenceGate
            | BlockKind::AcaciaFenceGate
            | BlockKind::DarkOakFenceGate
            | BlockKind::SpruceDoor
            | BlockKind::BirchDoor
            | BlockKind::JungleDoor
            | BlockKind::AcaciaDoor
            | BlockKind::DarkOakDoor
        )
    }

    /// Determines whether or not a block has the `open` property.
    #[verifier::when_used_as_spec(spec_has_open)]
    pub fn has_open(self) -> (r: bool)
        ensures
            r == self.spec_has_open(),
    {
        match self.kind() {
            BlockKind::OakDoor
            | BlockKind::IronDoor
            | BlockKind::OakTrapdoor
            | BlockKind::SpruceTrapdoor
            | BlockKind::BirchTrapdoor
            | BlockKind::JungleTrapdoor
            | BlockKind::AcaciaTrapdoor
            | BlockKind::DarkOakTrapdoor
            | BlockKind::OakFenceGate
            | BlockKind::IronTrapdoor
            | BlockKind::SpruceFenceGate
            | BlockKind::BirchFenceGate
            | BlockKind::JungleFenceGate
            | BlockKind::AcaciaFenceGate
            | BlockKind::DarkOakFenceGate
            | BlockKind::SpruceDoor
            | BlockKind::BirchDoor
            | BlockKind::JungleDoor
            | BlockKind::AcaciaDoor
            | BlockKind::DarkOakDoor => true,
            _ => false,
        }
    }

    /// Whether the kind of this block carries the `part` property.
    pub open spec fn spec_has_part(self) -> bool {
        matches!(
            self.spec_kind(),
            BlockKind::WhiteBed
            | BlockKind::OrangeBed
            | BlockKind::MagentaBed
            | BlockKind::LightBlueBed
            | BlockKind::YellowBed
            | BlockKind::LimeBed
            | BlockKind::PinkBed
            | BlockKind::GrayBed
            | BlockKind::LightGrayBed
            | BlockKind::CyanBed
            | BlockKind::PurpleBed
            | BlockKind::BlueBed
            | BlockKind::BrownBed
            | BlockKind::GreenBed
            | BlockKind::RedBed
            | BlockKind::BlackBed
        )
    }

    /// Determines whether or not a block has the `part` property.
    #[verifier::when_used_as_spec(spec_has_part)]
    pub fn has_part(self) -> (r: bool)
        ensures
            r == self.spec_has_part(),
    {
        match self.kind() {
            BlockKind::WhiteBed
            | BlockKind::OrangeBed
            | BlockKind::MagentaBed
            | BlockKind::LightBlueBed
            | BlockKind::YellowBed
            | BlockKind::LimeBed
            | BlockKind::PinkBed
            | BlockKind::GrayBed
            | BlockKind::LightGrayBed
            | BlockKind::CyanBed
            | BlockKind::PurpleBed
            | BlockKind::BlueBed
            | BlockKind::BrownBed
            | BlockKind::GreenBed
            | BlockKind::RedBed
            | BlockKind::BlackBed => true,
            _ => false,
        }
    }

    /// Whether the kind of this block carries the `persistent` property.
    pub open spec fn spec_has_persistent(self) -> bool {
        matches!(
            self.spec_kind(),
            BlockKind::OakLeaves
            | BlockKind::SpruceLeaves
            | BlockKind::BirchLeaves
            | BlockKind::JungleLeaves
            | BlockKind::AcaciaLeaves
            | BlockKind::DarkOakLeaves
        )
    }

    /// Determines whether or not a block has the `persistent` property.
    #[verifier::when_used_as_spec(spec_has_persistent)]
    pub fn has_persistent(self) -> (r: bool)
        ensures
            r == self.spec_has_persistent(),
    {
        match self.kind() {
            BlockKind::OakLeaves
            | BlockKind::SpruceLeaves
            | BlockKind::BirchLeaves
            | BlockKind::JungleLeaves
            | BlockKind::AcaciaLeaves
            | BlockKind::DarkOakLeaves => true,
            _ => false,
        }
    }

    /// Whether the kind of this block carries the `pickles` property.
    pub open spec fn spec_has_pickles(self) -> bool {
        matches!(
            self.spec_kind(),
            BlockKind::SeaPickle
        )
    }

    /// Determines whether or not a block has the `pickles` property.
    #[verifier::when_used_as_spec(spec_has_pickles)]
    pub fn has_pickles(self) -> (r: bool)
        ensures
            r == self.spec_has_pickles(),
    {
        match self.kind() {
            BlockKind::SeaPickle => true,
            _ => false,
        }
    }

    /// Whether the kind of this block carries the `piston_kind` property.
    pub open spec fn spec_has_piston_kind(self) -> bool {
        matches!(
            self.spec_kind(),
            BlockKind::PistonHead | BlockKind::MovingPiston
        )
    }

    /// Determines whether or not a block has the `piston_kind` property.
    #[verifier::when_used_as_spec(spec_has_piston_kind)]
    pub fn has_piston_kind(self) -> (r: bool)
        ensures
            r == self.spec_has_piston_kind(),
    {
        match self.kind() {
            BlockKind::PistonHead | BlockKind::MovingPiston => true,
            _ => false,
        }
    }

    /// Whether the kind of this block carries the `power` property.
    pub open spec fn spec_has_power(self) -> bool {
        matches!(
            self.spec_kind(),
            BlockKind::RedstoneWire
            | BlockKind::LightWeightedPressurePlate
            | BlockKind::HeavyWeightedPressurePlate
            | BlockKind::DaylightDetector
        )
    }

    /// Determines whether or not a block has the `power` property.
    #[verifier::when_used_as_spec(spec_has_power)]
    pub fn has_power(self) -> (r: bool)
        ensures
            r == self.spec_has_power(),
    {
        match self.kind() {
            BlockKind::RedstoneWire
            | BlockKind::LightWeightedPressurePlate
            | BlockKind::HeavyWeightedPressurePlate
            | BlockKind::DaylightDetector => true,
            _ => false,
        }
    }

    /// Whether the kind of this block carries the `powered` property.
    pub open spec fn spec_has_powered(self) -> bool {
        matches!(
            self.spec_kind(),
            BlockKind::NoteBlock
            | BlockKind::PoweredRail
            | BlockKind::DetectorRail
            | BlockKind::OakDoor
            | BlockKind::Lever
            | BlockKind::StonePressurePlate
            | BlockKind::IronDoor
            | BlockKind::OakPressurePlate
            | BlockKind::SprucePressurePlate
            | BlockKind::BirchPressurePlate
            | BlockKind::JunglePressurePlate
            | BlockKind::AcaciaPressurePlate
            | BlockKind::DarkOakPressurePlate
            | BlockKind::StoneButton
            | BlockKind::Repeater
            | BlockKind::OakTrapdoor
            | BlockKind::SpruceTrapdoor
            | BlockKind::BirchTrapdoor
            | BlockKind::JungleTrapdoor
            | BlockKind::AcaciaTrapdoor
            | BlockKind::DarkOakTrapdoor
            | BlockKind::OakFenceGate
            | BlockKind::TripwireHook
            | BlockKind::Tripwire
            | BlockKind::OakButton
            | BlockKind::SpruceButton
            | BlockKind::BirchButton
            | BlockKind::JungleButton
            | BlockKind::AcaciaButton
            | BlockKind::DarkOakButton
            | BlockKind::Comparator
            | BlockKind::ActivatorRail
            | BlockKind::IronTrapdoor
            | BlockKind::SpruceFenceGate
            | BlockKind::BirchFenceGate
            | BlockKind::JungleFenceGate
            | BlockKind::AcaciaFenceGate
            | BlockKind::DarkOakFenceGate
            | BlockKind::SpruceDoor
            | BlockKind::BirchDoor
            | BlockKind::JungleDoor
            | BlockKind::AcaciaDoor
            | BlockKind::DarkOakDoor
            | BlockKind::Observer
        )
    }

    /// Determines whether or not a block has the `powered` property.
    #[verifier::when_used_as_spec(spec_has_powered)]
    pub fn has_powered(self) -> (r: bool)
        ensures
            r == self.spec_has_powered(),
    {
        match self.kind() {
            BlockKind::NoteBlock
            | BlockKind::PoweredRail
            | BlockKind::DetectorRail
            | BlockKind::OakDoor
            | BlockKind::Lever
            | BlockKind::StonePressurePlate
            | BlockKind::IronDoor
            | BlockKind::OakPressurePlate
            | BlockKind::SprucePressurePlate
            | BlockKind::BirchPressurePlate
            | BlockKind::JunglePressurePlate
            | BlockKind::AcaciaPressurePlate
            | BlockKind::DarkOakPressurePlate
            | BlockKind::StoneButton
            | BlockKind::Repeater
            | BlockKind::OakTrapdoor
            | BlockKind::SpruceTrapdoor
            | BlockKind::BirchTrapdoor
            | BlockKind::JungleTrapdoor
            | BlockKind::AcaciaTrapdoor
            | BlockKind::DarkOakTrapdoor
            | BlockKind::OakFenceGate
            | BlockKind::TripwireHook
            | BlockKind::Tripwire
            | BlockKind::OakButton
            | BlockKind::SpruceButton
            | BlockKind::BirchButton
            | BlockKind::JungleButton
            | BlockKind::AcaciaButton
            | BlockKind::DarkOakButton
            | BlockKind::Comparator
            | BlockKind::ActivatorRail
            | BlockKind::IronTrapdoor
            | BlockKind::SpruceFenceGate
            | BlockKind::BirchFenceGate
            | BlockKind::JungleFenceGate
            | BlockKind::AcaciaFenceGate
            | BlockKind::DarkOakFenceGate
            | BlockKind::SpruceDoor
            | BlockKind::BirchDoor
            | BlockKind::JungleDoor
            | BlockKind::AcaciaDoor
            | BlockKind::DarkOakDoor
            | BlockKind::Observer => true,
            _ => false,
        }
    }

    /// Whether the kind of this block carries the `powered_rail_shape` property.
    pub open spec fn spec_has_powered_rail_shape(self) -> bool {
        matches!(
            self.spec_kind(),
            BlockKind::PoweredRail | BlockKind::DetectorRail | BlockKind::ActivatorRail
        )
    }

    /// Determines whether or not a block has the `powered_rail_shape` property.
    #[verifier::when_used_as_spec(spec_has_powered_rail_shape)]
    pub fn has_powered_rail_shape(self) -> (r: bool)
        ensures
            r == self.spec_has_powered_rail_shape(),
    {
        match self.kind() {
            BlockKind::PoweredRail | BlockKind::DetectorRail | BlockKind::ActivatorRail => true,
            _ => false,
        }
    }

    /// Whether the kind of this block carries the `rail_shape` property.
    pub open spec fn spec_has_rail_shape(self) -> bool {
        matches!(
            self.spec_kind(),
            BlockKind::Rail
        )
    }

    /// Determines whether or not a block has the `rail_shape` property.
    #[verifier::when_used_as_spec(spec_has_rail_shape)]
    pub fn has_rail_shape(self) -> (r: bool)
        ensures
            r == self.spec_has_rail_shape(),
    {
        match self.kind() {
            BlockKind::Rail => true,
            _ => false,
        }
    }

    /// Whether the kind of this block carries the `rotation` property.
    pub open spec fn spec_has_rotation(self) -> bool {
        matches!(
            self.spec_kind(),
            BlockKind::Sign
            | BlockKind::SkeletonSkull
            | BlockKind::WitherSkeletonSkull
            | BlockKind::ZombieHead
            | BlockKind::PlayerHead
            | BlockKind::CreeperHead
            | BlockKind::DragonHead
            | BlockKind::WhiteBanner
            | BlockKind::OrangeBanner
            | BlockKind::MagentaBanner
            | BlockKind::LightBlueBanner
            | BlockKind::YellowBanner
            | BlockKind::LimeBanner
            | BlockKind::PinkBanner
            | BlockKind::GrayBanner
            | BlockKind::LightGrayBanner
            | BlockKind::CyanBanner
            | BlockKind::PurpleBanner
            | BlockKind::BlueBanner
            | BlockKind::BrownBanner
            | BlockKind::GreenBanner
            | BlockKind::RedBanner
            | BlockKind::BlackBanner
        )
    }

    /// Determines whether or not a block has the `rotation` property.
    #[verifier::when_used_as_spec(spec_has_rotation)]
    pub fn has_rotation(self) -> (r: bool)
        ensures
            r == self.spec_has_rotation(),
    {
        match self.kind() {
            BlockKind::Sign
            | BlockKind::SkeletonSkull
            | BlockKind::WitherSkeletonSkull
            | BlockKind::ZombieHead
            | BlockKind::PlayerHead
            | BlockKind::CreeperHead
            | BlockKind::DragonHead
            | BlockKind::WhiteBanner
            | BlockKind::OrangeBanner
            | BlockKind::MagentaBanner
            | BlockKind::LightBlueBanner
            | BlockKind::YellowBanner
            | BlockKind::LimeBanner
            | BlockKind::PinkBanner
            | BlockKind::GrayBanner
            | BlockKind::LightGrayBanner
            | BlockKind::CyanBanner
            | BlockKind::PurpleBanner
            | BlockKind::BlueBanner
            | BlockKind::BrownBanner
            | BlockKind::GreenBanner
            | BlockKind::RedBanner
            | BlockKind::BlackBanner => true,
            _ => false,
        }
    }

    /// Whether the kind of this block carries the `short` property.
    pub open spec fn spec_has_short(self) -> bool {
        matches!(
            self.spec_kind(),
            BlockKind::PistonHead
        )
    }

    /// Determines whether or not a block has the `short` property.
    #[verifier::when_used_as_spec(spec_has_short)]
    pub fn has_short(self) -> (r: bool)
        ensures
            r == self.spec_has_short(),
    {
        match self.kind() {
            BlockKind::PistonHead => true,
            _ => false,
        }
    }

    /// Whether the kind of this block carries the `slab_kind` property.
    pub open spec fn spec_has_slab_kind(self) -> bool {
        matches!(
            self.spec_kind(),
            BlockKind::PrismarineSlab
            | BlockKind::PrismarineBrickSlab
            | BlockKind::DarkPrismarineSlab
            | BlockKind::OakSlab
            | BlockKind::SpruceSlab
            | BlockKind::BirchSlab
            | BlockKind::JungleSlab
            | BlockKind::AcaciaSlab
            | BlockKind::DarkOakSlab
            | BlockKind::StoneSlab
            | BlockKind::SandstoneSlab
            | BlockKind::PetrifiedOakSlab
            | BlockKind::CobblestoneSlab
            | BlockKind::BrickSlab
            | BlockKind::StoneBrickSlab
            | BlockKind::NetherBrickSlab
            | BlockKind::QuartzSlab
            | BlockKind::RedSandstoneSlab
            | BlockKind::PurpurSlab
        )
    }

    /// Determines whether or not a block has the `slab_kind` property.
    #[verifier::when_used_as_spec(spec_has_slab_kind)]
    pub fn has_slab_kind(self) -> (r: bool)
        ensures
            r == self.spec_has_slab_kind(),
    {
        match self.kind() {
            BlockKind::PrismarineSlab
            | BlockKind::PrismarineBrickSlab
            | BlockKind::DarkPrismarineSlab
            | BlockKind::OakSlab
            | BlockKind::SpruceSlab
            | BlockKind::BirchSlab
            | BlockKind::JungleSlab
            | BlockKind::AcaciaSlab
            | BlockKind::DarkOakSlab
            | BlockKind::StoneSlab
            | BlockKind::SandstoneSlab
            | BlockKind::PetrifiedOakSlab
            | BlockKind::CobblestoneSlab
            | BlockKind::BrickSlab
            | BlockKind::StoneBrickSlab
            | BlockKind::NetherBrickSlab
            | BlockKind::QuartzSlab
            | BlockKind::RedSandstoneSlab
            | BlockKind::PurpurSlab => true,
            _ => false,
        }
    }

    /// Whether the kind of this block carries the `snowy` property.
    pub open spec fn spec_has_snowy(self) -> bool {
        matches!(
            self.spec_kind(),
            BlockKind::GrassBlock | BlockKind::Podzol | BlockKind::Mycelium
        )
    }

    /// Determines whether or not a block has the `snowy` property.
    #[verifier::when_used_as_spec(spec_has_snowy)]
    pub fn has_snowy(self) -> (r: bool)
        ensures
            r == self.spec_has_snowy(),
    {
        match self.kind() {
            BlockKind::GrassBlock | BlockKind::Podzol | BlockKind::Mycelium => true,
            _ => false,
        }
    }

    /// Whether the kind of this block carries the `south_connected` property.
    pub open spec fn spec_has_south_connected(self) -> bool {
        matches!(
            self.spec_kind(),
            BlockKind::Fire
            | BlockKind::OakFence
            | BlockKind::BrownMushroomBlock
            | BlockKind::RedMushroomBlock
            | BlockKind::MushroomStem
            | BlockKind::IronBars
            | BlockKind::GlassPane
            | BlockKind::Vine
            | BlockKind::NetherBrickFence
            | BlockKind::Tripwire
            | BlockKind::CobblestoneWall
            | BlockKind::MossyCobblestoneWall
            | BlockKind::WhiteStainedGlassPane
            | BlockKind::OrangeStainedGlassPane
            | BlockKind::MagentaStainedGlassPane
            | BlockKind::LightBlueStainedGlassPane
            | BlockKind::YellowStainedGlassPane
            | BlockKind::LimeStainedGlassPane
            | BlockKind::PinkStainedGlassPane
            | BlockKind::GrayStainedGlassPane
            | BlockKind::LightGrayStainedGlassPane
            | BlockKind::CyanStainedGlassPane
            | BlockKind::PurpleStainedGlassPane
            | BlockKind::BlueStainedGlassPane
            | BlockKind::BrownStainedGlassPane
            | BlockKind::GreenStainedGlassPane
            | BlockKind::RedStainedGlassPane
            | BlockKind::BlackStainedGlassPane
            | BlockKind::SpruceFence
            | BlockKind::BirchFence
            | BlockKind::JungleFence
            | BlockKind::AcaciaFence
            | BlockKind::DarkOakFence
            | BlockKind::ChorusPlant
        )
    }

    /// Determines whether or not a block has the `south_connected` property.
    #[verifier::when_used_as_spec(spec_has_south_connected)]
    pub fn has_south_connected(self) -> (r: bool)
        ensures
            r == self.spec_has_south_connected(),
    {
        match self.kind() {
            BlockKind::Fire
            | BlockKind::OakFence
            | BlockKind::BrownMushroomBlock
            | BlockKind::RedMushroomBlock
            | BlockKind::MushroomStem
            | BlockKind::IronBars
            | BlockKind::GlassPane
            | BlockKind::Vine
            | BlockKind::NetherBrickFence
            | BlockKind::Tripwire
            | BlockKind::CobblestoneWall
            | BlockKind::MossyCobblestoneWall
            | BlockKind::WhiteStainedGlassPane
            | BlockKind::OrangeStainedGlassPane
            | BlockKind::MagentaStainedGlassPane
            | BlockKind::LightBlueStainedGlassPane
            | BlockKind::YellowStainedGlassPane
            | BlockKind::LimeStainedGlassPane
            | BlockKind::PinkStainedGlassPane
            | BlockKind::GrayStainedGlassPane
            | BlockKind::LightGrayStainedGlassPane
            | BlockKind::CyanStainedGlassPane
            | BlockKind::PurpleStainedGlassPane
            | BlockKind::BlueStainedGlassPane
            | BlockKind::BrownStainedGlassPane
            | BlockKind::GreenStainedGlassPane
            | BlockKind::RedStainedGlassPane
            | BlockKind::BlackStainedGlassPane
            | BlockKind::SpruceFence
            | BlockKind::BirchFence
            | BlockKind::JungleFence
            | BlockKind::AcaciaFence
            | BlockKind::DarkOakFence
            | BlockKind::ChorusPlant => true,
            _ => false,
        }
    }

    /// Whether the kind of this block carries the `south_wire` property.
    pub open spec fn spec_has_south_wire(self) -> bool {
        matches!(
            self.spec_kind(),
            BlockKind::RedstoneWire
        )
    }

    /// Determines whether or not a block has the `south_wire` property.
    #[verifier::when_used_as_spec(spec_has_south_wire)]
    pub fn has_south_wire(self) -> (r: bool)
        ensures
            r == self.spec_has_south_wire(),
    {
        match self.kind() {
            BlockKind::RedstoneWire => true,
            _ => false,
        }
    }

    /// Whether the kind of this block carries the `stage` property.
    pub open spec fn spec_has_stage(self) -> bool {
        matches!(
            self.spec_kind(),
            BlockKind::OakSapling
            | BlockKind::SpruceSapling
            | BlockKind::BirchSapling
            | BlockKind::JungleSapling
            | BlockKind::AcaciaSapling
            | BlockKind::DarkOakSapling
        )
    }

    /// Determines whether or not a block has the `stage` property.
    #[verifier::when_used_as_spec(spec_has_stage)]
    pub fn has_stage(self) -> (r: bool)
        ensures
            r == self.spec_has_stage(),
    {
        match self.kind() {
            BlockKind::OakSapling
            | BlockKind::SpruceSapling
            | BlockKind::BirchSapling
            | BlockKind::JungleSapling
            | BlockKind::AcaciaSapling
            | BlockKind::DarkOakSapling => true,
            _ => false,
        }
    }

    /// Whether the kind of this block carries the `stairs_shape` property.
    pub open spec fn spec_has_stairs_shape(self) -> bool {
        matches!(
            self.spec_kind(),
            BlockKind::OakStairs
            | BlockKind::CobblestoneStairs
            | BlockKind::BrickStairs
            | BlockKind::StoneBrickStairs
            | BlockKind::NetherBrickStairs
            | BlockKind::SandstoneStairs
            | BlockKind::SpruceStairs
            | BlockKind::BirchStairs
            | BlockKind::JungleStairs
            | BlockKind::QuartzStairs
            | BlockKind::AcaciaStairs
            | BlockKind::DarkOakStairs
            | BlockKind::PrismarineStairs
            | BlockKind::PrismarineBrickStairs
            | BlockKind::DarkPrismarineStairs
            | BlockKind::RedSandstoneStairs
            | BlockKind::PurpurStairs
        )
    }

    /// Determines whether or not a block has the `stairs_shape` property.
    #[verifier::when_used_as_spec(spec_has_stairs_shape)]
    pub fn has_stairs_shape(self) -> (r: bool)
        ensures
            r == self.spec_has_stairs_shape(),
    {
        match self.kind() {
            BlockKind::OakStairs
            | BlockKind::CobblestoneStairs
            | BlockKind::BrickStairs
            | BlockKind::StoneBrickStairs
            | BlockKind::NetherBrickStairs
            | BlockKind::SandstoneStairs
            | BlockKind::SpruceStairs
            | BlockKind::BirchStairs
            | BlockKind::JungleStairs
            | BlockKind::QuartzStairs
            | BlockKind::AcaciaStairs
            | BlockKind::DarkOakStairs
            | BlockKind::PrismarineStairs
            | BlockKind::PrismarineBrickStairs
            | BlockKind::DarkPrismarineStairs
            | BlockKind::RedSandstoneStairs
            | BlockKind::PurpurStairs => true,
            _ => false,
        }
    }

    /// Whether the kind of this block carries the `structure_block_mode` property.
    pub open spec fn spec_has_structure_block_mode(self) -> bool {
        matches!(
            self.spec_kind(),
            BlockKind::StructureBlock
        )
    }

    /// Determines whether or not a block has the `structure_block_mode` property.
    #[verifier::when_used_as_spec(spec_has_structure_block_mode)]
    pub fn has_structure_block_mode(self) -> (r: bool)
        ensures
            r == self.spec_has_structure_block_mode(),
    {
        match self.kind() {
            BlockKind::StructureBlock => true,
            _ => false,
        }
    }

    /// Whether the kind of this block carries the `triggered` property.
    pub open spec fn spec_has_triggered(self) -> bool {
        matches!(
            self.spec_kind(),
            BlockKind::Dispenser | BlockKind::Dropper
        )
    }

    /// Determines whether or not a block has the `triggered` property.
    #[verifier::when_used_as_spec(spec_has_triggered)]
    pub fn has_triggered(self) -> (r: bool)
        ensures
            r == self.spec_has_triggered(),
    {
        match self.kind() {
            BlockKind::Dispenser | BlockKind::Dropper => true,
            _ => false,
        }
    }

    /// Whether the kind of this block carries the `unstable` property.
    pub open spec fn spec_has_unstable(self) -> bool {
        matches!(
            self.spec_kind(),
            BlockKind::Tnt
        )
    }

    /// Determines whether or not a block has the `unstable` property.
    #[verifier::when_used_as_spec(spec_has_unstable)]
    pub fn has_unstable(self) -> (r: bool)
        ensures
            r == self.spec_has_unstable(),
    {
        match self.kind() {
            BlockKind::Tnt => true,
            _ => false,
        }
    }

    /// Whether the kind of this block carries the `up` property.
    pub open spec fn spec_has_up(self) -> bool {
        matches!(
            self.spec_kind(),
            BlockKind::Fire
            | BlockKind::BrownMushroomBlock
            | BlockKind::RedMushroomBlock
            | BlockKind::MushroomStem
            | BlockKind::Vine
            | BlockKind::CobblestoneWall
            | BlockKind::MossyCobblestoneWall
            | BlockKind::ChorusPlant
        )
    }

    /// Determines whether or not a block has the `up` property.
    #[verifier::when_used_as_spec(spec_has_up)]
    pub fn has_up(self) -> (r: bool)
        ensures
            r == self.spec_has_up(),
    {
        match self.kind() {
            BlockKind::Fire
            | BlockKind::BrownMushroomBlock
            | BlockKind::RedMushroomBlock
            | BlockKind::MushroomStem
            | BlockKind::Vine
            | BlockKind::CobblestoneWall
            | BlockKind::MossyCobblestoneWall
            | BlockKind::ChorusPlant => true,
            _ => false,
        }
    }

    /// Whether the kind of this block carries the `water_level` property.
    pub open spec fn spec_has_water_level(self) -> bool {
        matches!(
            self.spec_kind(),
            BlockKind::Water | BlockKind::Lava
        )
    }

    /// Determines whether or not a block has the `water_level` property.
    #[verifier::when_used_as_spec(spec_has_water_level)]
    pub fn has_water_level(self) -> (r: bool)
        ensures
            r == self.spec_has_water_level(),
    {
        match self.kind() {
            BlockKind::Water | BlockKind::Lava => true,
            _ => false,
        }
    }

    /// Whether the kind of this block carries the `waterlogged` property.
    pub open spec fn spec_has_waterlogged(self) -> bool {
        matches!(
            self.spec_kind(),
            BlockKind::OakStairs
            | BlockKind::Chest
            | BlockKind::Sign
            | BlockKind::Ladder
            | BlockKind::CobblestoneStairs
            | BlockKind::WallSign
            | BlockKind::OakFence
            | BlockKind::OakTrapdoor
            | BlockKind::SpruceTrapdoor
            | BlockKind::BirchTrapdoor
            | BlockKind::JungleTrapdoor
            | BlockKind::AcaciaTrapdoor
            | BlockKind::DarkOakTrapdoor
            | BlockKind::IronBars
            | BlockKind::GlassPane
            | BlockKind::BrickStairs
            | BlockKind::StoneBrickStairs
            | BlockKind::NetherBrickFence
            | BlockKind::NetherBrickStairs
            | BlockKind::SandstoneStairs
            | BlockKind::EnderChest
            | BlockKind::SpruceStairs
            | BlockKind::BirchStairs
            | BlockKind::JungleStairs
            | BlockKind::CobblestoneWall
            | BlockKind::MossyCobblestoneWall
            | BlockKind::TrappedChest
            | BlockKind::QuartzStairs
            | BlockKind::WhiteStainedGlassPane
            | BlockKind::OrangeStainedGlassPane
            | BlockKind::MagentaStainedGlassPane
            | BlockKind::LightBlueStainedGlassPane
            | BlockKind::YellowStainedGlassPane
            | BlockKind::LimeStainedGlassPane
            | BlockKind::PinkStainedGlassPane
            | BlockKind::GrayStainedGlassPane
            | BlockKind::LightGrayStainedGlassPane
            | BlockKind::CyanStainedGlassPane
            | BlockKind::PurpleStainedGlassPane
            | BlockKind::BlueStainedGlassPane
            | BlockKind::BrownStainedGlassPane
            | BlockKind::GreenStainedGlassPane
            | BlockKind::RedStainedGlassPane
            | BlockKind::BlackStainedGlassPane
            | BlockKind::AcaciaStairs
            | BlockKind::DarkOakStairs
            | BlockKind::IronTrapdoor
            | BlockKind::PrismarineStairs
            | BlockKind::PrismarineBrickStairs
            | BlockKind::DarkPrismarineStairs
            | BlockKind::PrismarineSlab
            | BlockKind::PrismarineBrickSlab
            | BlockKind::DarkPrismarineSlab
            | BlockKind::RedSandstoneStairs
            | BlockKind::OakSlab
            | BlockKind::SpruceSlab
            | BlockKind::BirchSlab
            | BlockKind::JungleSlab
            | BlockKind::AcaciaSlab
            | BlockKind::DarkOakSlab
            | BlockKind::StoneSlab
            | BlockKind::SandstoneSlab
            | BlockKind::PetrifiedOakSlab
            | BlockKind::CobblestoneSlab
            | BlockKind::BrickSlab
            | BlockKind::StoneBrickSlab
            | BlockKind::NetherBrickSlab
            | BlockKind::QuartzSlab
            | BlockKind::RedSandstoneSlab
            | BlockKind::PurpurSlab
            | BlockKind::SpruceFence
            | BlockKind::BirchFence
            | BlockKind::JungleFence
            | BlockKind::AcaciaFence
            | BlockKind::DarkOakFence
            | BlockKind::PurpurStairs
            | BlockKind::DeadTubeCoral
            | BlockKind::DeadBrainCoral
            | BlockKind::DeadBubbleCoral
            | BlockKind::DeadFireCoral
            | BlockKind::DeadHornCoral
            | BlockKind::TubeCoral
            | BlockKind::BrainCoral
            | BlockKind::BubbleCoral
            | BlockKind::FireCoral
            | BlockKind::HornCoral
            | BlockKind::DeadTubeCoralWallFan
            | BlockKind::DeadBrainCoralWallFan
            | BlockKind::DeadBubbleCoralWallFan
            | BlockKind::DeadFireCoralWallFan
            | BlockKind::DeadHornCoralWallFan
            | BlockKind::TubeCoralWallFan
            | BlockKind::BrainCoralWallFan
            | BlockKind::BubbleCoralWallFan
            | BlockKind::FireCoralWallFan
            | BlockKind::HornCoralWallFan
            | BlockKind::DeadTubeCoralFan
            | BlockKind::DeadBrainCoralFan
            | BlockKind::DeadBubbleCoralFan
            | BlockKind::DeadFireCoralFan
            | BlockKind::DeadHornCoralFan
            | BlockKind::TubeCoralFan
            | BlockKind::BrainCoralFan
            | BlockKind::BubbleCoralFan
            | BlockKind::FireCoralFan
            | BlockKind::HornCoralFan
            | BlockKind::SeaPickle
            | BlockKind::Conduit
        )
    }

    /// Determines whether or not a block has the `waterlogged` property.
    #[verifier::when_used_as_spec(spec_has_waterlogged)]
    pub fn has_waterlogged(self) -> (r: bool)
        ensures
            r == self.spec_has_waterlogged(),
    {
        match self.kind() {
            BlockKind::OakStairs
            | BlockKind::Chest
            | BlockKind::Sign
            | BlockKind::Ladder
            | BlockKind::CobblestoneStairs
            | BlockKind::WallSign
            | BlockKind::OakFence
            | BlockKind::OakTrapdoor
            | BlockKind::SpruceTrapdoor
            | BlockKind::BirchTrapdoor
            | BlockKind::JungleTrapdoor
            | BlockKind::AcaciaTrapdoor
            | BlockKind::DarkOakTrapdoor
            | BlockKind::IronBars
            | BlockKind::GlassPane
            | BlockKind::BrickStairs
            | BlockKind::StoneBrickStairs
            | BlockKind::NetherBrickFence
            | BlockKind::NetherBrickStairs
            | BlockKind::SandstoneStairs
            | BlockKind::EnderChest
            | BlockKind::SpruceStairs
            | BlockKind::BirchStairs
            | BlockKind::JungleStairs
            | BlockKind::CobblestoneWall
            | BlockKind::MossyCobblestoneWall
            | BlockKind::TrappedChest
            | BlockKind::QuartzStairs
            | BlockKind::WhiteStainedGlassPane
            | BlockKind::OrangeStainedGlassPane
            | BlockKind::MagentaStainedGlassPane
            | BlockKind::LightBlueStainedGlassPane
            | BlockKind::YellowStainedGlassPane
            | BlockKind::LimeStainedGlassPane
            | BlockKind::PinkStainedGlassPane
            | BlockKind::GrayStainedGlassPane
            | BlockKind::LightGrayStainedGlassPane
            | BlockKind::CyanStainedGlassPane
            | BlockKind::PurpleStainedGlassPane
            | BlockKind::BlueStainedGlassPane
            | BlockKind::BrownStainedGlassPane
            | BlockKind::GreenStainedGlassPane
            | BlockKind::RedStainedGlassPane
            | BlockKind::BlackStainedGlassPane
            | BlockKind::AcaciaStairs
            | BlockKind::DarkOakStairs
            | BlockKind::IronTrapdoor
            | BlockKind::PrismarineStairs
            | BlockKind::PrismarineBrickStairs
            | BlockKind::DarkPrismarineStairs
            | BlockKind::PrismarineSlab
            | BlockKind::PrismarineBrickSlab
            | BlockKind::DarkPrismarineSlab
            | BlockKind::RedSandstoneStairs
            | BlockKind::OakSlab
            | BlockKind::SpruceSlab
            | BlockKind::BirchSlab
            | BlockKind::JungleSlab
            | BlockKind::AcaciaSlab
            | BlockKind::DarkOakSlab
            | BlockKind::StoneSlab
            | BlockKind::SandstoneSlab
            | BlockKind::PetrifiedOakSlab
            | BlockKind::CobblestoneSlab
            | BlockKind::BrickSlab
            | BlockKind::StoneBrickSlab
            | BlockKind::NetherBrickSlab
            | BlockKind::QuartzSlab
            | BlockKind::RedSandstoneSlab
            | BlockKind::PurpurSlab
            | BlockKind::SpruceFence
            | BlockKind::BirchFence
            | BlockKind::JungleFence
            | BlockKind::AcaciaFence
            | BlockKind::DarkOakFence
            | BlockKind::PurpurStairs
            | BlockKind::DeadTubeCoral
            | BlockKind::DeadBrainCoral
            | BlockKind::DeadBubbleCoral
            | BlockKind::DeadFireCoral
            | BlockKind::DeadHornCoral
            | BlockKind::TubeCoral
            | BlockKind::BrainCoral
            | BlockKind::BubbleCoral
            | BlockKind::FireCoral
            | BlockKind::HornCoral
            | BlockKind::DeadTubeCoralWallFan
            | BlockKind::DeadBrainCoralWallFan
            | BlockKind::DeadBubbleCoralWallFan
            | BlockKind::DeadFireCoralWallFan
            | BlockKind::DeadHornCoralWallFan
            | BlockKind::TubeCoralWallFan
            | BlockKind::BrainCoralWallFan
            | BlockKind::BubbleCoralWallFan
            | BlockKind::FireCoralWallFan
            | BlockKind::HornCoralWallFan
            | BlockKind::DeadTubeCoralFan
            | BlockKind::DeadBrainCoralFan
            | BlockKind::DeadBubbleCoralFan
            | BlockKind::DeadFireCoralFan
            | BlockKind::DeadHornCoralFan
            | BlockKind::TubeCoralFan
            | BlockKind::BrainCoralFan
            | BlockKind::BubbleCoralFan
            | BlockKind::FireCoralFan
            | BlockKind::HornCoralFan
            | BlockKind::SeaPickle
            | BlockKind::Conduit => true,
            _ => false,
        }
    }

    /// Whether the kind of this block carries the `west_connected` property.
    pub open spec fn spec_has_west_connected(self) -> bool {
        matches!(
            self.spec_kind(),
            BlockKind::Fire
            | BlockKind::OakFence
            | BlockKind::BrownMushroomBlock
            | BlockKind::RedMushroomBlock
            | BlockKind::MushroomStem
            | BlockKind::IronBars
            | BlockKind::GlassPane
            | BlockKind::Vine
            | BlockKind::NetherBrickFence
            | BlockKind::Tripwire
            | BlockKind::CobblestoneWall
            | BlockKind::MossyCobblestoneWall
            | BlockKind::WhiteStainedGlassPane
            | BlockKind::OrangeStainedGlassPane
            | BlockKind::MagentaStainedGlassPane
            | BlockKind::LightBlueStainedGlassPane
            | BlockKind::YellowStainedGlassPane
            | BlockKind::LimeStainedGlassPane
            | BlockKind::PinkStainedGlassPane
            | BlockKind::GrayStainedGlassPane
            | BlockKind::LightGrayStainedGlassPane
            | BlockKind::CyanStainedGlassPane
            | BlockKind::PurpleStainedGlassPane
            | BlockKind::BlueStainedGlassPane
            | BlockKind::BrownStainedGlassPane
            | BlockKind::GreenStainedGlassPane
            | BlockKind::RedStainedGlassPane
            | BlockKind::BlackStainedGlassPane
            | BlockKind::SpruceFence
            | BlockKind::BirchFence
            | BlockKind::JungleFence
            | BlockKind::AcaciaFence
            | BlockKind::DarkOakFence
            | BlockKind::ChorusPlant
        )
    }

    /// Determines whether or not a block has the `west_connected` property.
    #[verifier::when_used_as_spec(spec_has_west_connected)]
    pub fn has_west_connected(self) -> (r: bool)
        ensures
            r == self.spec_has_west_connected(),
    {
        match self.kind() {
            BlockKind::Fire
            | BlockKind::OakFence
            | BlockKind::BrownMushroomBlock
            | BlockKind::RedMushroomBlock
            | BlockKind::MushroomStem
            | BlockKind::IronBars
            | BlockKind::GlassPane
            | BlockKind::Vine
            | BlockKind::NetherBrickFence
            | BlockKind::Tripwire
            | BlockKind::CobblestoneWall
            | BlockKind::MossyCobblestoneWall
            | BlockKind::WhiteStainedGlassPane
            | BlockKind::OrangeStainedGlassPane
            | BlockKind::MagentaStainedGlassPane
            | BlockKind::LightBlueStainedGlassPane
            | BlockKind::YellowStainedGlassPane
            | BlockKind::LimeStainedGlassPane
            | BlockKind::PinkStainedGlassPane
            | BlockKind::GrayStainedGlassPane
            | BlockKind::LightGrayStainedGlassPane
            | BlockKind::CyanStainedGlassPane
            | BlockKind::PurpleStainedGlassPane
            | BlockKind::BlueStainedGlassPane
            | BlockKind::BrownStainedGlassPane
            | BlockKind::GreenStainedGlassPane
            | BlockKind::RedStainedGlassPane
            | BlockKind::BlackStainedGlassPane
            | BlockKind::SpruceFence
            | BlockKind::BirchFence
            | BlockKind::JungleFence
            | BlockKind::AcaciaFence
            | BlockKind::DarkOakFence
            | BlockKind::ChorusPlant => true,
            _ => false,
        }
    }

    /// Whether the kind of this block carries the `west_wire` property.
    pub open spec fn spec_has_west_wire(self) -> bool {
        matches!(
            self.spec_kind(),
            BlockKind::RedstoneWire
        )
    }

    /// Determines whether or not a block has the `west_wire` property.
    #[verifier::when_used_as_spec(spec_has_west_wire)]
    pub fn has_west_wire(self) -> (r: bool)
        ensures
            r == self.spec_has_west_wire(),
    {
        match self.kind() {
            BlockKind::RedstoneWire => true,
            _ => false,
        }
    }

}

} // verus!
