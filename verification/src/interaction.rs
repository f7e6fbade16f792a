//! The interaction tick: maps a world-space pointer position to the bed
//! under it, applies hover feedback, and attempts a planting transition on
//! a click.

use vstd::prelude::*;
use crate::grid::BedGrid;
use crate::grid::COLUMNS;
use crate::grid::ROWS;
use crate::grid::BED_COUNT;
use crate::grid::in_bounds;
use crate::grid::lemma_bed_index_bijective;
use crate::seed_bag::SeedBag;

verus! {

/// Side length of a bed's hit square, in world units (the bed sprite size).
pub const CELL_SIZE: i32 = 32;

/// Half of `CELL_SIZE`: the hit square extends this far from the centre.
pub const HALF_CELL: i32 = 16;

/// World-space x coordinate of a bed's centre. Beds sit on a lattice with
/// spacing `CELL_SIZE`, the row axis running along x, roughly centred on
/// the origin.
pub open spec fn bed_center_x_spec(row: int) -> int {
    (CELL_SIZE as int) * (row - 2)
}

/// World-space y coordinate of a bed's centre (the column axis runs along y).
pub open spec fn bed_center_y_spec(column: int) -> int {
    (CELL_SIZE as int) * (column - 3)
}

/// World-space x coordinate of a bed's centre, for placement and rendering.
pub fn bed_center_x(row: i32) -> (x: i32)
    requires
        0 <= row < ROWS,
    ensures
        x as int == bed_center_x_spec(row as int),
{
    CELL_SIZE * (row - 2)
}

/// World-space y coordinate of a bed's centre, for placement and rendering.
pub fn bed_center_y(column: i32) -> (y: i32)
    requires
        0 <= column < COLUMNS,
    ensures
        y as int == bed_center_y_spec(column as int),
{
    CELL_SIZE * (column - 3)
}

/// The point lies within the bed's axis-aligned hit square: the square of
/// side `CELL_SIZE` centred on the bed's world position, bounds inclusive.
pub open spec fn square_contains(row: int, column: int, px: int, py: int) -> bool {
    &&& bed_center_x_spec(row) - HALF_CELL <= px <= bed_center_x_spec(row) + HALF_CELL
    &&& bed_center_y_spec(column) - HALF_CELL <= py <= bed_center_y_spec(column) + HALF_CELL
}

/// The point lies strictly inside the bed's hit square (off its edges), so
/// it can belong to no other bed's square on the lattice.
pub open spec fn strictly_inside(row: int, column: int, px: int, py: int) -> bool {
    &&& bed_center_x_spec(row) - HALF_CELL < px < bed_center_x_spec(row) + HALF_CELL
    &&& bed_center_y_spec(column) - HALF_CELL < py < bed_center_y_spec(column) + HALF_CELL
}

/// `(r1, c1)` comes before `(r2, c2)` in the grid's stable row-major
/// iteration order.
pub open spec fn earlier_in_row_major(r1: int, c1: int, r2: int, c2: int) -> bool {
    r1 < r2 || (r1 == r2 && c1 < c2)
}

/// `(row, column)` is the bed hit-testing yields for the point: the first
/// bed in row-major order whose square contains it. (First-match is the
/// tie-break for points on a shared square edge.)
pub open spec fn first_hit(row: int, column: int, px: int, py: int) -> bool {
    &&& in_bounds(row, column)
    &&& square_contains(row, column, px, py)
    &&& forall|r2: int, c2: int|
        in_bounds(r2, c2) && earlier_in_row_major(r2, c2, row, column)
            ==> !#[trigger] square_contains(r2, c2, px, py)
}

/// The point lies in no bed's hit square at all.
pub open spec fn misses_all(px: int, py: int) -> bool {
    forall|r: int, c: int| in_bounds(r, c) ==> !#[trigger] square_contains(r, c, px, py)
}

/// Resolves which bed (if any) is under a world-space point, walking the
/// beds in row-major order and returning the first whose square contains
/// the point.
pub fn hit_test(px: i32, py: i32) -> (r: Option<(i32, i32)>)
    ensures
        match r {
            Some(hit) => first_hit(hit.0 as int, hit.1 as int, px as int, py as int),
            None => misses_all(px as int, py as int),
        },
{
    let mut row: i32 = 0;
    while row < ROWS
        invariant
            0 <= row <= ROWS,
            forall|r2: int, c2: int|
                in_bounds(r2, c2) && r2 < row ==> !#[trigger] square_contains(
                    r2,
                    c2,
                    px as int,
                    py as int,
                ),
        decreases ROWS - row,
    {
        let cx: i32 = CELL_SIZE * (row - 2);
        let mut column: i32 = 0;
        while column < COLUMNS
            invariant
                0 <= row < ROWS,
                0 <= column <= COLUMNS,
                cx == CELL_SIZE * (row - 2),
                forall|r2: int, c2: int|
                    in_bounds(r2, c2) && r2 < row ==> !#[trigger] square_contains(
                        r2,
                        c2,
                        px as int,
                        py as int,
                    ),
                forall|c2: int|
                    0 <= c2 < column ==> !#[trigger] square_contains(
                        row as int,
                        c2,
                        px as int,
                        py as int,
                    ),
            decreases COLUMNS - column,
        {
            let cy: i32 = CELL_SIZE * (column - 3);
            if cx - HALF_CELL <= px && px <= cx + HALF_CELL && cy - HALF_CELL <= py && py
                <= cy + HALF_CELL {
                return Some((row, column));
            }
            column = column + 1;
        }
        row = row + 1;
    }
    None
}

/// A click this tick will change a bed: the button edge fired, a bed is
/// under the pointer, a seed is selected, and that bed is empty.
pub open spec fn planting_applies(
    g: BedGrid,
    bag: SeedBag,
    hit: Option<(i32, i32)>,
    just_pressed: bool,
) -> bool {
    &&& just_pressed
    &&& hit is Some
    &&& bag.selection_spec() is Some
    &&& g.plant_at(hit.unwrap().0 as int, hit.unwrap().1 as int) is None
}

/// One interaction tick.
///
/// `pointer` is the pointer position already mapped to world space by the
/// host engine, or `None` when the pointer is outside the window (or the
/// projection yielded no world point): then the tick does nothing at all —
/// no hover change, no planting attempt — and that is not an error.
///
/// With a pointer present, every bed's hover flag is reset and the first
/// bed in row-major order whose square contains the point (if any) becomes
/// the sole hovered bed; it is returned. If additionally the primary button
/// was just pressed and the seed bag has a selection:
/// - an empty hit bed is planted with the selected species (the bag itself
///   is unchanged: planting does not consume the seed);
/// - an occupied hit bed is left as it is (the inspect/harvest response to
///   such a click is deliberately deferred), and no error is raised.
///
/// Seasonal sowing legality is not checked: nothing in this core tracks a
/// current season yet, so the seasonal windows stay catalog metadata.
pub fn tick(
    grid: &mut BedGrid,
    bag: &SeedBag,
    pointer: Option<(i32, i32)>,
    just_pressed: bool,
) -> (hit: Option<(i32, i32)>)
    requires
        old(grid).wf(),
        bag.wf(),
    ensures
        final(grid).wf(),
        pointer is None ==> *final(grid) == *old(grid) && hit is None,
        pointer matches Some(p) ==> {
            &&& (hit matches Some(h) ==> first_hit(h.0 as int, h.1 as int, p.0 as int, p.1 as int))
            &&& (hit is None ==> misses_all(p.0 as int, p.1 as int))
            &&& forall|r: int, c: int|
                in_bounds(r, c) ==> (#[trigger] final(grid).hovered_at(r, c) <==> hit == Some(
                    (r as i32, c as i32),
                ))
            &&& (planting_applies(*old(grid), *bag, hit, just_pressed) ==> final(grid).plant_at(
                hit.unwrap().0 as int,
                hit.unwrap().1 as int,
            ) == Some(bag.selection_spec().unwrap()))
            &&& forall|r: int, c: int|
                in_bounds(r, c) && !(planting_applies(*old(grid), *bag, hit, just_pressed) && hit
                    == Some((r as i32, c as i32))) ==> #[trigger] final(grid).plant_at(r, c) == old(
                    grid,
                ).plant_at(r, c)
        },
{
    let p = match pointer {
        None => {
            return None;
        },
        Some(q) => q,
    };
    let hit = hit_test(p.0, p.1);
    let ghost g0 = *grid;

    // Reset every bed to the neutral hover state before marking the hit bed,
    // so that non-hovered beds always read back neutral.
    let mut i: usize = 0;
    while i < BED_COUNT
        invariant
            i <= BED_COUNT,
            grid.beds == g0.beds,
            grid.hovered@.len() == BED_COUNT,
            g0.wf(),
            forall|j: int| 0 <= j < i ==> !(#[trigger] grid.hovered@[j]),
        decreases BED_COUNT - i,
    {
        grid.hovered.set(i, false);
        i = i + 1;
    }

    if let Some(h) = hit {
        proof {
            lemma_bed_index_bijective(h.0 as int, h.1 as int);
        }
        let idx: usize = (h.0 * COLUMNS + h.1) as usize;
        grid.hovered.set(idx, true);

        if just_pressed {
            if let Some(species) = bag.current_selection() {
                // An occupied bed absorbs the click: inspecting or harvesting
                // on click is deliberately deferred, so only an empty bed is
                // planted.
                if bed_is_empty(grid, h.0, h.1) {
                    let _ = grid.plant(h.0, h.1, species);
                }
            }
        }
        proof {
            assert forall|r: int, c: int| in_bounds(r, c) implies (
            #[trigger] grid.hovered_at(r, c) <==> hit == Some((r as i32, c as i32))) by {
                lemma_bed_index_bijective(r, c);
                lemma_bed_index_bijective(h.0 as int, h.1 as int);
            }
            assert forall|r: int, c: int|
                in_bounds(r, c) && !(planting_applies(g0, *bag, hit, just_pressed) && hit == Some(
                    (r as i32, c as i32),
                )) implies #[trigger] grid.plant_at(r, c) == g0.plant_at(r, c) by {
                lemma_bed_index_bijective(r, c);
                lemma_bed_index_bijective(h.0 as int, h.1 as int);
            }
        }
    } else {
        proof {
            assert forall|r: int, c: int| in_bounds(r, c) implies (
            #[trigger] grid.hovered_at(r, c) <==> hit == Some((r as i32, c as i32))) by {
                lemma_bed_index_bijective(r, c);
            }
            assert forall|r: int, c: int| in_bounds(r, c) implies #[trigger] grid.plant_at(r, c)
                == g0.plant_at(r, c) by {
                lemma_bed_index_bijective(r, c);
            }
        }
    }
    hit
}

/// The bed at an in-bounds coordinate currently holds no plant.
fn bed_is_empty(grid: &BedGrid, row: i32, column: i32) -> (r: bool)
    requires
        grid.wf(),
        in_bounds(row as int, column as int),
    ensures
        r == (grid.plant_at(row as int, column as int) is None),
{
    proof {
        lemma_bed_index_bijective(row as int, column as int);
    }
    let idx: usize = (row * COLUMNS + column) as usize;
    grid.beds[idx].plant.is_none()
}

/// Hit-testing is exclusive: a point strictly inside one bed's hit square
/// lies in no other bed's square (the beds sit on a non-overlapping lattice
/// with spacing equal to the square side), so that bed is the unique — and
/// in particular the first — hit, and exactly one bed reports hover.
pub proof fn lemma_hit_exclusive(row: int, column: int, px: int, py: int)
    requires
        in_bounds(row, column),
        strictly_inside(row, column, px, py),
    ensures
        first_hit(row, column, px, py),
        forall|r2: int, c2: int|
            in_bounds(r2, c2) && !(r2 == row && c2 == column) ==> !#[trigger] square_contains(
                r2,
                c2,
                px,
                py,
            ),
{
    assert forall|r2: int, c2: int|
        in_bounds(r2, c2) && !(r2 == row && c2 == column) implies !#[trigger] square_contains(
        r2,
        c2,
        px,
        py,
    ) by {
        if r2 < row {
            assert(bed_center_x_spec(r2) + HALF_CELL < px);
        } else if r2 > row {
            assert(px < bed_center_x_spec(r2) - HALF_CELL);
        } else if c2 < column {
            assert(bed_center_y_spec(c2) + HALF_CELL < py);
        } else {
            assert(py < bed_center_y_spec(c2) - HALF_CELL);
        }
    }
}

} // verus!
