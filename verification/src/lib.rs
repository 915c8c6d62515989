//! Chunk persistence for a voxel world, with the value types and rules of
//! the game around it.
//!
//! The persistence engine keeps chunks in region files. `packed_array`
//! holds the bit-packed arrays of per-block data; `palette`, `chunk` and
//! `heightmap` hold chunks in memory; `codec` and `round_trip` convert
//! between a chunk and its stored record; `compress` frames a record for
//! storage; `sector`, `header` and `region` lay records out in the file;
//! `tables` looks up block states and biomes; `error` names what can go
//! wrong. None of it touches a file: the caller reads and writes the bytes
//! that these modules ask for.
//!
//! Around it stand the blocks and their properties (`blocks`,
//! `block_properties`), items, inventories and windows (`item`,
//! `inventory`, `window`), the settings of a game (`settings`), chat text
//! (`text`), command arguments (`arguments`), the byte layout of the
//! network protocol (`wire`, `framing`, `movement`), entities and their
//! components (`entity`, `component`, `entity_builder`, `world`, `query`),
//! heterogeneous lists (`hlist`) and world generation (`worldgen`).

pub mod arguments;
pub mod block_properties;
pub mod blocks;
pub mod chunk;
pub mod codec;
pub mod component;
pub mod compress;
pub mod entity;
pub mod entity_builder;
pub mod error;
pub mod framing;
pub mod header;
pub mod heightmap;
pub mod hlist;
pub mod inventory;
pub mod item;
pub mod movement;
pub mod packed_array;
pub mod palette;
pub mod path;
pub mod query;
pub mod region;
pub mod round_trip;
pub mod sector;
pub mod settings;
pub mod tables;
pub mod text;
pub mod window;
pub mod wire;
pub mod world;
pub mod worldgen;
