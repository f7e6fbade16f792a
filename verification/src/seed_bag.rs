//! The player's seed bag: an ordered inventory of species and the current
//! selection used by planting attempts.

use vstd::prelude::*;
use crate::plants::Plant;
use crate::plants::kumara;
use crate::plants::manuka;
use crate::plants::puha;
use crate::FarmError;

verus! {

/// The seed inventory: an ordered list of species (duplicates allowed,
/// insertion order kept) and the index of the currently selected entry.
/// Planting does not consume a seed: the bag is left unchanged by a
/// successful plant (each species is an unlimited packet).
pub struct SeedBag {
    pub seeds: Vec<Plant>,
    pub selected: usize,
}

impl SeedBag {
    /// Well-formed: the selection indexes the list whenever the bag is
    /// non-empty; an empty bag keeps the selection parked at zero so that
    /// restocking re-arms it.
    pub open spec fn wf(self) -> bool {
        if self.seeds@.len() == 0 {
            self.selected == 0
        } else {
            (self.selected as int) < self.seeds@.len()
        }
    }

    /// The species a planting attempt would use: the selected entry, or
    /// `None` when the bag is empty.
    pub open spec fn selection_spec(self) -> Option<Plant> {
        if self.seeds@.len() == 0 {
            None
        } else {
            Some(self.seeds@[self.selected as int])
        }
    }

    /// Builds the session's starter bag: Kumara, Manuka and Puha in that
    /// order, with the first selected.
    pub fn new() -> (bag: SeedBag)
        ensures
            bag.wf(),
            bag.selected == 0,
            bag.seeds@.len() == 3,
            bag.seeds@[0].name@ == "Kumara"@,
            bag.seeds@[1].name@ == "Manuka"@,
            bag.seeds@[2].name@ == "Puha"@,
            forall|i: int|
                0 <= i < 3 ==> (#[trigger] bag.seeds@[i]).sow == crate::plants::Season::Autumn
                    && bag.seeds@[i].harvest == crate::plants::Season::Spring,
    {
        let mut seeds: Vec<Plant> = Vec::new();
        seeds.push(kumara());
        seeds.push(manuka());
        seeds.push(puha());
        SeedBag { seeds, selected: 0 }
    }

    /// An empty bag: nothing selectable until a species is added.
    pub fn empty() -> (bag: SeedBag)
        ensures
            bag.wf(),
            bag.seeds@.len() == 0,
            bag.selection_spec() is None,
    {
        SeedBag { seeds: Vec::new(), selected: 0 }
    }

    /// Changes the selection. Succeeds exactly when `index` is in range
    /// (so never on an empty bag); an out-of-range index is rejected with
    /// `IndexOutOfRange` and the selection is unchanged. The seed list
    /// itself is never changed.
    pub fn select(&mut self, index: usize) -> (r: Result<(), FarmError>)
        requires
            old(self).wf(),
        ensures
            final(self).wf(),
            final(self).seeds == old(self).seeds,
            (index as int) < old(self).seeds@.len() ==> (r matches Ok(u) && final(self).selected
                == index),
            (index as int) >= old(self).seeds@.len() ==> (r matches Err(e) && e
                == FarmError::IndexOutOfRange && *final(self) == *old(self)),
    {
        if index < self.seeds.len() {
            self.selected = index;
            Ok(())
        } else {
            Err(FarmError::IndexOutOfRange)
        }
    }

    /// The species the current selection points at, or `None` when the bag
    /// is empty. Pure: the bag is not changed.
    pub fn current_selection(&self) -> (r: Option<Plant>)
        requires
            self.wf(),
        ensures
            r == self.selection_spec(),
    {
        if self.seeds.len() == 0 {
            None
        } else {
            Some(self.seeds[self.selected])
        }
    }

    /// Appends a species to the bag (restocking). The selection is
    /// unchanged; insertion order is kept.
    pub fn add(&mut self, species: Plant)
        requires
            old(self).wf(),
        ensures
            final(self).wf(),
            final(self).seeds@ == old(self).seeds@.push(species),
            final(self).selected == old(self).selected,
    {
        self.seeds.push(species);
    }
}

} // verus!
