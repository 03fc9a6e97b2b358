//! Partitioning of a globe's root quads into chunks of cells.
use vstd::prelude::*;

pub mod chunk;
pub mod chunk_origin;
pub mod chunk_pair;
pub mod chunk_shared_points;
pub mod dry_land;
pub mod geometry;
pub mod globe_spec;
pub mod iters;
pub mod loaded_chunks;
pub mod shared_cells;

pub use self::chunk::{cell_index, contains_pos, Material};
pub use self::chunk_origin::ChunkOrigin;
pub use self::chunk_pair::{ChunkPair, ChunkPairOrigins, PointPair};
pub use self::chunk_shared_points::ChunkSharedPoints;
pub use self::iters::ChunksInSameRootContainingPoint;
