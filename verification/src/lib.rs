//! A small farm-planting core: a fixed grid of plantable beds, a player-held
//! bag of seed species with a current selection, and a pointer-driven
//! interaction tick that resolves which bed is under the pointer, applies
//! hover feedback, and attempts to plant the selected species on a click.
//!
//! The surrounding engine (window, camera, rendering) is out of scope: it
//! hands the tick a world-space pointer position and a button edge event,
//! and reads bed and bag state back for display.

use vstd::prelude::*;

pub mod grid;
pub mod interaction;
pub mod plants;
pub mod seed_bag;

verus! {

/// Everything that can go wrong in the planting core.
#[derive(Clone, Copy, PartialEq, Eq, Debug, Structural)]
pub enum FarmError {
    /// A bed coordinate outside the grid.
    OutOfBounds,
    /// A planting attempt on a bed that already holds a plant.
    BedOccupied,
    /// A seed-bag selection index past the end of the bag.
    IndexOutOfRange,
}

} // verus!
