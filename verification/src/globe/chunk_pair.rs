//! Tracking cells shared between neighboring chunks.
use vstd::prelude::*;

use super::chunk_origin::ChunkOrigin;
use crate::grid_point3::PosInOwningRoot;
use crate::point2::Point3;

verus! {

/// The chunk that owns some shared cells (`source`) and a chunk that
/// holds copies of them (`sink`).
#[derive(Hash, Clone, Copy, PartialEq, Eq, Debug, Structural)]
pub struct ChunkPairOrigins {
    pub source: ChunkOrigin,
    pub sink: ChunkOrigin,
}

/// The cells shared by a pair of chunks, and how current the copies in
/// the sink chunk are.
pub struct ChunkPair {
    pub point_pairs: Vec<PointPair>,
    pub last_upstream_edge_version_known_downstream: u64,
}

/// One shared cell, as expressed in its owning root (`source`) and as
/// expressed in the sink chunk (`sink`).
#[derive(Clone, Copy, PartialEq, Eq, Debug, Structural)]
pub struct PointPair {
    pub source: PosInOwningRoot,
    pub sink: Point3,
}

} // verus!
