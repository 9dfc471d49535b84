//! Kinds of blocks.

use vstd::prelude::*;

verus! {

/// A kind of block: those that a rule names, and the others by number.
#[derive(Clone, Copy, Debug, PartialEq, Eq, Structural)]
pub enum Block {
    Cobweb,
    EndGateway,
    EndPortal,
    Ladder,
    NetherPortal,
    PowderSnow,
    Scaffolding,
    SlimeBlock,
    Water,
    Other(u16),
}

} // verus!
