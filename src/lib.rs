//! A tile-based game world: terrain grid, entities, collision-aware movement,
//! nearest-entity targeting and bounded on-screen message logs.
//!
//! Drawing is expressed as plain values (`Paint`, `TextLine`) that a terminal
//! front end carries out; nothing in this crate performs I/O.

pub mod coord;
pub mod text;
pub mod tile;
pub mod tilemap;
pub mod ui;
pub mod world;

pub use coord::{Coord, Direction};
pub use tile::{Color, Paint, Rune, Tile};
pub use tilemap::TileMap;
pub use ui::{Region, TextLine, UI};
pub use world::{Entity, EntityType, World};
