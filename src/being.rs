//! Kinds of beings.
use vstd::prelude::*;

verus! {

/// A marker for the enumeration of being kinds that a game uses.
pub trait BeingType {

}

/// The kinds of being in the isometric tile example.
#[derive(Copy, Clone, Debug, PartialEq, Eq, Structural)]
pub enum IsoBeingType {
    Tile,
    Layer,
}

impl BeingType for IsoBeingType {

}

} // verus!
