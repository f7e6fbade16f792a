//! The bed grid: a fixed 5 x 4 arrangement of plantable beds, one per
//! coordinate, stored in row-major order, each holding at most one plant
//! and a transient hover flag for display.

use vstd::prelude::*;
use crate::plants::Plant;
use crate::FarmError;

verus! {

/// Number of rows in the grid.
pub const ROWS: i32 = 5;

/// Number of columns in the grid.
pub const COLUMNS: i32 = 4;

/// Total number of beds, one per coordinate pair.
pub const BED_COUNT: usize = 20;

/// Visual scale of a bed that is not hovered, in tenths (1.0x).
pub const NEUTRAL_SCALE_TENTHS: u32 = 10;

/// Visual scale of the hovered bed, in tenths (1.1x hover feedback).
pub const HOVER_SCALE_TENTHS: u32 = 11;

/// A coordinate lies on the grid.
pub open spec fn in_bounds(row: int, column: int) -> bool {
    0 <= row < ROWS as int && 0 <= column < COLUMNS as int
}

/// Position of a coordinate in the grid's row-major order
/// (ascending row, then ascending column).
pub open spec fn bed_index(row: int, column: int) -> int {
    row * (COLUMNS as int) + column
}

/// One plantable bed: its grid coordinates and the plant it holds, if any.
/// A bed with `plant == None` is empty; planting fills it, clearing
/// (the harvesting primitive) empties it again.
#[derive(Clone, Copy, PartialEq, Eq, Debug)]
pub struct PlantBed {
    pub plant: Option<Plant>,
    pub row: i32,
    pub column: i32,
}

/// The full collection of beds, created once per session and never resized,
/// together with each bed's hover flag (display state only: hover never
/// affects planting legality).
pub struct BedGrid {
    /// The beds in row-major order: the bed at index `i` has coordinates
    /// `(i / COLUMNS, i % COLUMNS)`.
    pub beds: Vec<PlantBed>,
    /// Hover flag per bed, in the same order as `beds`.
    pub hovered: Vec<bool>,
}

impl BedGrid {
    /// Well-formed: exactly one bed per coordinate, in row-major order,
    /// with a hover flag for each.
    pub open spec fn wf(self) -> bool {
        &&& self.beds@.len() == BED_COUNT
        &&& self.hovered@.len() == BED_COUNT
        &&& forall|i: int|
            0 <= i < BED_COUNT ==> (#[trigger] self.beds@[i]).row as int == i / (COLUMNS as int)
                && self.beds@[i].column as int == i % (COLUMNS as int)
    }

    /// The plant held by the bed at an in-bounds coordinate.
    pub open spec fn plant_at(self, row: int, column: int) -> Option<Plant> {
        self.beds@[bed_index(row, column)].plant
    }

    /// The hover flag of the bed at an in-bounds coordinate.
    pub open spec fn hovered_at(self, row: int, column: int) -> bool {
        self.hovered@[bed_index(row, column)]
    }

    /// Builds the session grid: every bed present, empty, and unhovered.
    pub fn new() -> (grid: BedGrid)
        ensures
            grid.wf(),
            forall|r: int, c: int| in_bounds(r, c) ==> #[trigger] grid.plant_at(r, c) is None,
            forall|r: int, c: int| in_bounds(r, c) ==> !(#[trigger] grid.hovered_at(r, c)),
    {
        let mut beds: Vec<PlantBed> = Vec::new();
        let mut hovered: Vec<bool> = Vec::new();
        let mut i: usize = 0;
        while i < BED_COUNT
            invariant
                i <= BED_COUNT,
                beds@.len() == i,
                hovered@.len() == i,
                forall|j: int|
                    0 <= j < i ==> (#[trigger] beds@[j]).row as int == j / (COLUMNS as int)
                        && beds@[j].column as int == j % (COLUMNS as int)
                        && beds@[j].plant is None,
                forall|j: int| 0 <= j < i ==> !(#[trigger] hovered@[j]),
            decreases BED_COUNT - i,
        {
            let row: i32 = (i as i32) / COLUMNS;
            let column: i32 = (i as i32) % COLUMNS;
            beds.push(PlantBed { plant: None, row, column });
            hovered.push(false);
            i = i + 1;
        }
        let grid = BedGrid { beds, hovered };
        assert forall|r: int, c: int| in_bounds(r, c) implies #[trigger] grid.plant_at(r, c) is None by {
            lemma_bed_index_bijective(r, c);
        }
        assert forall|r: int, c: int| in_bounds(r, c) implies !(#[trigger] grid.hovered_at(r, c)) by {
            lemma_bed_index_bijective(r, c);
        }
        grid
    }

    /// Looks up the bed at a coordinate; any coordinate off the grid is
    /// rejected with `OutOfBounds`.
    pub fn bed_at(&self, row: i32, column: i32) -> (r: Result<&PlantBed, FarmError>)
        requires
            self.wf(),
        ensures
            in_bounds(row as int, column as int) ==> (r matches Ok(bed) && bed.row == row
                && bed.column == column && bed.plant == self.plant_at(row as int, column as int)),
            !in_bounds(row as int, column as int) ==> (r matches Err(e) && e
                == FarmError::OutOfBounds),
    {
        if row < 0 || row >= ROWS || column < 0 || column >= COLUMNS {
            return Err(FarmError::OutOfBounds);
        }
        let idx: usize = (row * COLUMNS + column) as usize;
        proof {
            lemma_bed_index_bijective(row as int, column as int);
        }
        Ok(&self.beds[idx])
    }

    /// Plants a species into the bed at a coordinate. Succeeds exactly when
    /// the coordinate is on the grid and the bed is empty; an occupied bed
    /// is rejected with `BedOccupied` (regardless of species), a coordinate
    /// off the grid with `OutOfBounds`. On failure nothing changes; on
    /// success only that bed's plant changes. Hover flags are untouched.
    pub fn plant(&mut self, row: i32, column: i32, species: Plant) -> (r: Result<(), FarmError>)
        requires
            old(self).wf(),
        ensures
            final(self).wf(),
            final(self).hovered == old(self).hovered,
            !in_bounds(row as int, column as int) ==> (r matches Err(e) && e
                == FarmError::OutOfBounds && *final(self) == *old(self)),
            in_bounds(row as int, column as int) && old(self).plant_at(
                row as int,
                column as int,
            ) is Some ==> (r matches Err(e) && e == FarmError::BedOccupied && *final(self) == *old(
                self,
            )),
            in_bounds(row as int, column as int) && old(self).plant_at(
                row as int,
                column as int,
            ) is None ==> (r matches Ok(u) && final(self).plant_at(row as int, column as int)
                == Some(species)),
            forall|r2: int, c2: int|
                in_bounds(r2, c2) && !(r2 == row as int && c2 == column as int)
                    ==> #[trigger] final(self).plant_at(r2, c2) == old(self).plant_at(r2, c2),
    {
        if row < 0 || row >= ROWS || column < 0 || column >= COLUMNS {
            return Err(FarmError::OutOfBounds);
        }
        let idx: usize = (row * COLUMNS + column) as usize;
        proof {
            lemma_bed_index_bijective(row as int, column as int);
        }
        let bed = self.beds[idx];
        if bed.plant.is_some() {
            return Err(FarmError::BedOccupied);
        }
        self.beds.set(idx, PlantBed { plant: Some(species), row: bed.row, column: bed.column });
        proof {
            assert forall|r2: int, c2: int|
                in_bounds(r2, c2) && !(r2 == row as int && c2 == column as int)
                    implies #[trigger] self.plant_at(r2, c2) == old(self).plant_at(r2, c2) by {
                lemma_bed_index_bijective(r2, c2);
                lemma_bed_index_bijective(row as int, column as int);
            }
        }
        Ok(())
    }

    /// Empties the bed at a coordinate (the harvesting primitive).
    /// Succeeds for every on-grid coordinate and is idempotent: clearing an
    /// already-empty bed changes nothing and is not an error. A coordinate
    /// off the grid is rejected with `OutOfBounds` and nothing changes.
    pub fn clear(&mut self, row: i32, column: i32) -> (r: Result<(), FarmError>)
        requires
            old(self).wf(),
        ensures
            final(self).wf(),
            final(self).hovered == old(self).hovered,
            !in_bounds(row as int, column as int) ==> (r matches Err(e) && e
                == FarmError::OutOfBounds && *final(self) == *old(self)),
            in_bounds(row as int, column as int) ==> (r matches Ok(u) && final(self).plant_at(
                row as int,
                column as int,
            ) is None),
            in_bounds(row as int, column as int) && old(self).plant_at(
                row as int,
                column as int,
            ) is None ==> *final(self) == *old(self),
            forall|r2: int, c2: int|
                in_bounds(r2, c2) && !(r2 == row as int && c2 == column as int)
                    ==> #[trigger] final(self).plant_at(r2, c2) == old(self).plant_at(r2, c2),
    {
        if row < 0 || row >= ROWS || column < 0 || column >= COLUMNS {
            return Err(FarmError::OutOfBounds);
        }
        let idx: usize = (row * COLUMNS + column) as usize;
        proof {
            lemma_bed_index_bijective(row as int, column as int);
        }
        let bed = self.beds[idx];
        if bed.plant.is_some() {
            self.beds.set(idx, PlantBed { plant: None, row: bed.row, column: bed.column });
            proof {
                assert forall|r2: int, c2: int|
                    in_bounds(r2, c2) && !(r2 == row as int && c2 == column as int)
                        implies #[trigger] self.plant_at(r2, c2) == old(self).plant_at(r2, c2) by {
                    lemma_bed_index_bijective(r2, c2);
                    lemma_bed_index_bijective(row as int, column as int);
                }
            }
        }
        Ok(())
    }

    /// The visual scale the presentation layer should draw the bed at, in
    /// tenths: the hovered bed is scaled up as hover feedback, every other
    /// bed reads back neutral. Display state only; it never affects
    /// planting legality.
    pub fn hover_scale_tenths(&self, row: i32, column: i32) -> (r: Result<u32, FarmError>)
        requires
            self.wf(),
        ensures
            in_bounds(row as int, column as int) ==> (r matches Ok(s) && s == (
            if self.hovered_at(row as int, column as int) {
                HOVER_SCALE_TENTHS
            } else {
                NEUTRAL_SCALE_TENTHS
            })),
            !in_bounds(row as int, column as int) ==> (r matches Err(e) && e
                == FarmError::OutOfBounds),
    {
        if row < 0 || row >= ROWS || column < 0 || column >= COLUMNS {
            return Err(FarmError::OutOfBounds);
        }
        let idx: usize = (row * COLUMNS + column) as usize;
        proof {
            lemma_bed_index_bijective(row as int, column as int);
        }
        if self.hovered[idx] {
            Ok(HOVER_SCALE_TENTHS)
        } else {
            Ok(NEUTRAL_SCALE_TENTHS)
        }
    }

    /// All beds in the grid's stable row-major order, for hit-testing and
    /// rendering.
    pub fn all_beds(&self) -> (r: &Vec<PlantBed>)
        requires
            self.wf(),
        ensures
            r@ == self.beds@,
            r@.len() == BED_COUNT,
    {
        &self.beds
    }
}

/// Row-major indexing is a bijection between on-grid coordinates and
/// positions `0 .. BED_COUNT`: each coordinate has exactly one bed.
pub proof fn lemma_bed_index_bijective(row: int, column: int)
    requires
        in_bounds(row, column),
    ensures
        0 <= bed_index(row, column) < BED_COUNT,
        bed_index(row, column) / (COLUMNS as int) == row,
        bed_index(row, column) % (COLUMNS as int) == column,
        forall|r2: int, c2: int|
            in_bounds(r2, c2) && #[trigger] bed_index(r2, c2) == bed_index(row, column) ==> r2
                == row && c2 == column,
{
    assert(bed_index(row, column) / (COLUMNS as int) == row) by (nonlinear_arith)
        requires
            in_bounds(row, column),
    ;
    assert(bed_index(row, column) % (COLUMNS as int) == column) by (nonlinear_arith)
        requires
            in_bounds(row, column),
    ;
    assert forall|r2: int, c2: int|
        in_bounds(r2, c2) && #[trigger] bed_index(r2, c2) == bed_index(row, column) implies r2
        == row && c2 == column by {
        assert(r2 == row && c2 == column) by (nonlinear_arith)
            requires
                in_bounds(row, column),
                in_bounds(r2, c2),
                bed_index(r2, c2) == bed_index(row, column),
        ;
    }
}

} // verus!
