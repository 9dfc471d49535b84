//! Positions of blocks and of entities.

use vstd::prelude::*;

use super::rank::Rank64;

verus! {

/// The position of a block.
#[derive(Clone, Copy, Debug, PartialEq, Eq, Structural)]
pub struct BlockPos {
    pub x: i32,
    pub y: i32,
    pub z: i32,
}

/// A position in the world.
#[derive(Clone, Copy, Debug, PartialEq, Eq, Structural)]
pub struct Position {
    pub x: Rank64,
    pub y: Rank64,
    pub z: Rank64,
}

} // verus!
