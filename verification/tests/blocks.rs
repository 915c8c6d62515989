use feather::arguments::{BlockPos, BoolArgument, IntegerArgumentBetween0And255};
use feather::blocks::{BlockId, BlockKind};
use feather::header::ChunkPosition;
use feather::settings::{default_gamemode, Difficulty, Dimension, Gamemode, PlayerData};
use feather::worldgen::{block_index, EmptyWorldGenerator, WorldGenerator};

fn use_empty_world() {
    let chunk = EmptyWorldGenerator {}.generate_chunk(ChunkPosition::new(4, -4));
    assert_eq!(chunk.position(), ChunkPosition::new(4, -4));
    for y in 0..16 {
        assert!(chunk.section(y).is_none());
    }
    assert_eq!(chunk.biome_at(255), 0);
    assert_eq!(block_index(1, 2, 3, 256, 0), (2 << 8) | (1 << 4) | 3);
    assert_eq!(block_index(15, -64, 15, 384, -64), 255);
    assert_eq!(block_index(0, 319, 0, 384, -64), 383 * 256);
}

#[test]
fn block_properties_by_kind() {
    let fire = BlockId::new(BlockKind::Fire, 3);
    assert_eq!(fire.kind(), BlockKind::Fire);
    assert_eq!(fire.state(), 3);
    assert!(fire.has_age_0_15());
    assert!(!fire.has_age_0_7());
    assert!(BlockId::new(BlockKind::Wheat, 0).has_age_0_7());
    assert!(BlockId::new(BlockKind::OakLog, 0).has_axis_xyz());
    assert!(!BlockId::new(BlockKind::OakLog, 0).has_axis_xz());
    assert!(BlockId::new(BlockKind::NetherPortal, 0).has_axis_xz());
    assert!(BlockId::new(BlockKind::OakStairs, 0).has_waterlogged());
    assert!(BlockId::new(BlockKind::OakStairs, 0).has_stairs_shape());
    assert!(BlockId::new(BlockKind::OakStairs, 0).has_facing_cardinal());
    assert!(!BlockId::new(BlockKind::Stone, 0).has_waterlogged());
    assert!(!BlockId::new(BlockKind::Air, 0).has_facing_cardinal());
    assert!(BlockId::new(BlockKind::Cake, 0).has_bites());
}

#[test]
fn setting_numbers() {
    assert_eq!(Gamemode::Survival.get_id(), 0);
    assert_eq!(Gamemode::Spectator.get_id(), 3);
    assert_eq!(Gamemode::from_id(2), Some(Gamemode::Adventure));
    assert_eq!(Gamemode::from_id(4), None);
    assert_eq!(Difficulty::Hard.get_id(), 3);
    assert_eq!(Dimension::Nether.get_id(), -1);
    assert_eq!(Dimension::Overwold.get_id(), 0);
    assert_eq!(Dimension::End.get_id(), 1);
    assert_eq!(default_gamemode(), -1);
    assert!(Gamemode::Survival.abilities().can_take_damage);
    assert!(Gamemode::Survival.abilities().can_break);
    assert!(!Gamemode::Survival.abilities().can_insta_break);
    assert!(Gamemode::Creative.abilities().can_insta_break);
    assert!(!Gamemode::Creative.abilities().can_take_damage);
    assert!(!Gamemode::Adventure.abilities().can_break);
    assert!(!Gamemode::Spectator.abilities().can_take_damage);
    assert_eq!(PlayerData::default().gamemode, 0);
}

#[test]
fn arguments_keep_their_text() {
    assert!(BoolArgument::satisfies("true"));
    assert!(BoolArgument::satisfies(""));
    assert_eq!(BoolArgument::parse("true").0, "true");
    assert_eq!(BlockPos::parse("~1").0, "~1");
    assert_eq!(IntegerArgumentBetween0And255::parse("300").0, "300");
    assert_eq!(BoolArgument::parse("x").clone().0, "x");
}

#[test]
fn empty_world() {
    use_empty_world();
}
