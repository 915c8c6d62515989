//! Block kinds and block states.
//!
//! A `BlockKind` names a sort of block; a `BlockId` is a kind together with
//! the number of one of its states. The kinds listed are those that carry
//! state properties and the commonest of those that carry none.

use vstd::prelude::*;

verus! {

/// A sort of block.
#[derive(Clone, Copy, Debug, PartialEq, Eq, Structural, Hash)]
pub enum BlockKind {
    Air,
    Stone,
    Granite,
    Dirt,
    Cobblestone,
    Bedrock,
    Sand,
    Gravel,
    Glass,
    Obsidian,
    AcaciaButton,
    AcaciaDoor,
    AcaciaFence,
    AcaciaFenceGate,
    AcaciaLeaves,
    AcaciaLog,
    AcaciaPressurePlate,
    AcaciaSapling,
    AcaciaSlab,
    AcaciaStairs,
    AcaciaTrapdoor,
    AcaciaWood,
    ActivatorRail,
    Anvil,
    AttachedMelonStem,
    AttachedPumpkinStem,
    Beetroots,
    BirchButton,
    BirchDoor,
    BirchFence,
    BirchFenceGate,
    BirchLeaves,
    BirchLog,
    BirchPressurePlate,
    BirchSapling,
    BirchSlab,
    BirchStairs,
    BirchTrapdoor,
    BirchWood,
    BlackBanner,
    BlackBed,
    BlackGlazedTerracotta,
    BlackShulkerBox,
    BlackStainedGlassPane,
    BlackWallBanner,
    BlueBanner,
    BlueBed,
    BlueGlazedTerracotta,
    BlueShulkerBox,
    BlueStainedGlassPane,
    BlueWallBanner,
    BoneBlock,
    BrainCoral,
    BrainCoralFan,
    BrainCoralWallFan,
    BrewingStand,
    BrickSlab,
    BrickStairs,
    BrownBanner,
    BrownBed,
    BrownGlazedTerracotta,
    BrownMushroomBlock,
    BrownShulkerBox,
    BrownStainedGlassPane,
    BrownWallBanner,
    BubbleColumn,
    BubbleCoral,
    BubbleCoralFan,
    BubbleCoralWallFan,
    Cactus,
    Cake,
    Carrots,
    CarvedPumpkin,
    Cauldron,
    ChainCommandBlock,
    Chest,
    ChippedAnvil,
    ChorusFlower,
    ChorusPlant,
    CobblestoneSlab,
    CobblestoneStairs,
    CobblestoneWall,
    Cocoa,
    CommandBlock,
    Comparator,
    Conduit,
    CreeperHead,
    CreeperWallHead,
    CyanBanner,
    CyanBed,
    CyanGlazedTerracotta,
    CyanShulkerBox,
    CyanStainedGlassPane,
    CyanWallBanner,
    DamagedAnvil,
    DarkOakButton,
    DarkOakDoor,
    DarkOakFence,
    DarkOakFenceGate,
    DarkOakLeaves,
    DarkOakLog,
    DarkOakPressurePlate,
    DarkOakSapling,
    DarkOakSlab,
    DarkOakStairs,
    DarkOakTrapdoor,
    DarkOakWood,
    DarkPrismarineSlab,
    DarkPrismarineStairs,
    DaylightDetector,
    DeadBrainCoral,
    DeadBrainCoralFan,
    DeadBrainCoralWallFan,
    DeadBubbleCoral,
    DeadBubbleCoralFan,
    DeadBubbleCoralWallFan,
    DeadFireCoral,
    DeadFireCoralFan,
    DeadFireCoralWallFan,
    DeadHornCoral,
    DeadHornCoralFan,
    DeadHornCoralWallFan,
    DeadTubeCoral,
    DeadTubeCoralFan,
    DeadTubeCoralWallFan,
    DetectorRail,
    Dispenser,
    DragonHead,
    DragonWallHead,
    Dropper,
    EndPortalFrame,
    EndRod,
    EnderChest,
    Farmland,
    Fire,
    FireCoral,
    FireCoralFan,
    FireCoralWallFan,
    FrostedIce,
    Furnace,
    GlassPane,
    GrassBlock,
    GrayBanner,
    GrayBed,
    GrayGlazedTerracotta,
    GrayShulkerBox,
    GrayStainedGlassPane,
    GrayWallBanner,
    GreenBanner,
    GreenBed,
    GreenGlazedTerracotta,
    GreenShulkerBox,
    GreenStainedGlassPane,
    GreenWallBanner,
    HayBlock,
    HeavyWeightedPressurePlate,
    Hopper,
    HornCoral,
    HornCoralFan,
    HornCoralWallFan,
    IronBars,
    IronDoor,
    IronTrapdoor,
    JackOLantern,
    Jukebox,
    JungleButton,
    JungleDoor,
    JungleFence,
    JungleFenceGate,
    JungleLeaves,
    JungleLog,
    JunglePressurePlate,
    JungleSapling,
    JungleSlab,
    JungleStairs,
    JungleTrapdoor,
    JungleWood,
    Kelp,
    Ladder,
    LargeFern,
    Lava,
    Lever,
    LightBlueBanner,
    LightBlueBed,
    LightBlueGlazedTerracotta,
    LightBlueShulkerBox,
    LightBlueStainedGlassPane,
    LightBlueWallBanner,
    LightGrayBanner,
    LightGrayBed,
    LightGrayGlazedTerracotta,
    LightGrayShulkerBox,
    LightGrayStainedGlassPane,
    LightGrayWallBanner,
    LightWeightedPressurePlate,
    Lilac,
    LimeBanner,
    LimeBed,
    LimeGlazedTerracotta,
    LimeShulkerBox,
    LimeStainedGlassPane,
    LimeWallBanner,
    MagentaBanner,
    MagentaBed,
    MagentaGlazedTerracotta,
    MagentaShulkerBox,
    MagentaStainedGlassPane,
    MagentaWallBanner,
    MelonStem,
    MossyCobblestoneWall,
    MovingPiston,
    MushroomStem,
    Mycelium,
    NetherBrickFence,
    NetherBrickSlab,
    NetherBrickStairs,
    NetherPortal,
    NetherWart,
    NoteBlock,
    OakButton,
    OakDoor,
    OakFence,
    OakFenceGate,
    OakLeaves,
    OakLog,
    OakPressurePlate,
    OakSapling,
    OakSlab,
    OakStairs,
    OakTrapdoor,
    OakWood,
    Observer,
    OrangeBanner,
    OrangeBed,
    OrangeGlazedTerracotta,
    OrangeShulkerBox,
    OrangeStainedGlassPane,
    OrangeWallBanner,
    Peony,
    PetrifiedOakSlab,
    PinkBanner,
    PinkBed,
    PinkGlazedTerracotta,
    PinkShulkerBox,
    PinkStainedGlassPane,
    PinkWallBanner,
    Piston,
    PistonHead,
    PlayerHead,
    PlayerWallHead,
    Podzol,
    Potatoes,
    PoweredRail,
    PrismarineBrickSlab,
    PrismarineBrickStairs,
    PrismarineSlab,
    PrismarineStairs,
    PumpkinStem,
    PurpleBanner,
    PurpleBed,
    PurpleGlazedTerracotta,
    PurpleShulkerBox,
    PurpleStainedGlassPane,
    PurpleWallBanner,
    PurpurPillar,
    PurpurSlab,
    PurpurStairs,
    QuartzPillar,
    QuartzSlab,
    QuartzStairs,
    Rail,
    RedBanner,
    RedBed,
    RedGlazedTerracotta,
    RedMushroomBlock,
    RedSandstoneSlab,
    RedSandstoneStairs,
    RedShulkerBox,
    RedStainedGlassPane,
    RedWallBanner,
    RedstoneLamp,
    RedstoneOre,
    RedstoneTorch,
    RedstoneWallTorch,
    RedstoneWire,
    Repeater,
    RepeatingCommandBlock,
    RoseBush,
    SandstoneSlab,
    SandstoneStairs,
    SeaPickle,
    ShulkerBox,
    Sign,
    SkeletonSkull,
    SkeletonWallSkull,
    Snow,
    SpruceButton,
    SpruceDoor,
    SpruceFence,
    SpruceFenceGate,
    SpruceLeaves,
    SpruceLog,
    SprucePressurePlate,
    SpruceSapling,
    SpruceSlab,
    SpruceStairs,
    SpruceTrapdoor,
    SpruceWood,
    StickyPiston,
    StoneBrickSlab,
    StoneBrickStairs,
    StoneButton,
    StonePressurePlate,
    StoneSlab,
    StrippedAcaciaLog,
    StrippedAcaciaWood,
    StrippedBirchLog,
    StrippedBirchWood,
    StrippedDarkOakLog,
    StrippedDarkOakWood,
    StrippedJungleLog,
    StrippedJungleWood,
    StrippedOakLog,
    StrippedOakWood,
    StrippedSpruceLog,
    StrippedSpruceWood,
    StructureBlock,
    SugarCane,
    Sunflower,
    TallGrass,
    TallSeagrass,
    Tnt,
    TrappedChest,
    Tripwire,
    TripwireHook,
    TubeCoral,
    TubeCoralFan,
    TubeCoralWallFan,
    TurtleEgg,
    Vine,
    WallSign,
    WallTorch,
    Water,
    Wheat,
    WhiteBanner,
    WhiteBed,
    WhiteGlazedTerracotta,
    WhiteShulkerBox,
    WhiteStainedGlassPane,
    WhiteWallBanner,
    WitherSkeletonSkull,
    WitherSkeletonWallSkull,
    YellowBanner,
    YellowBed,
    YellowGlazedTerracotta,
    YellowShulkerBox,
    YellowStainedGlassPane,
    YellowWallBanner,
    ZombieHead,
    ZombieWallHead,
}

/// A block: its kind and the number of its state among the states of that
/// kind.
#[derive(Clone, Copy, Debug, PartialEq, Eq, Structural, Hash)]
pub struct BlockId {
    kind: BlockKind,
    state: u16,
}

impl BlockId {
    /// The kind of this block.
    pub closed spec fn spec_kind(self) -> BlockKind {
        self.kind
    }

    /// The number of this block's state.
    pub closed spec fn spec_state(self) -> u16 {
        self.state
    }

    /// The block of the given kind in the given state.
    pub fn new(kind: BlockKind, state: u16) -> (r: Self)
        ensures
            r.spec_kind() == kind,
            r.spec_state() == state,
    {
        BlockId { kind, state }
    }

    /// Returns the kind of this block.
    #[verifier::when_used_as_spec(spec_kind)]
    pub fn kind(self) -> (r: BlockKind)
        ensures
            r == self.spec_kind(),
    {
        self.kind
    }

    /// Returns the number of this block's state.
    #[verifier::when_used_as_spec(spec_state)]
    pub fn state(self) -> (r: u16)
        ensures
            r == self.spec_state(),
    {
        self.state
    }
}

} // verus!
