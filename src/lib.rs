//! A tile-based renderer's core: the tile grid, keyboard edge tracking, the
//! simulation state, mesh data and the fixed-timestep frame pacer.

pub mod input;
pub mod mesh;
pub mod pacer;
pub mod state;
pub mod tiles;

pub use mesh::{TileInstance, TriangleMesh, Vertex};
pub use pacer::{Config, PacerAction, StateApplication};
pub use input::{Input, InputState, KeyEvent, KeyState};
pub use state::GameState;
pub use tiles::{MapError, Tile, TileMap, TileMapIter, TileType};
