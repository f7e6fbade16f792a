use plant_management::grid::BedGrid;
use plant_management::grid::COLUMNS;
use plant_management::grid::ROWS;
use plant_management::grid::HOVER_SCALE_TENTHS;
use plant_management::grid::NEUTRAL_SCALE_TENTHS;
use plant_management::interaction::bed_center_x;
use plant_management::interaction::bed_center_y;
use plant_management::interaction::hit_test;
use plant_management::interaction::tick;
use plant_management::plants::manuka;
use plant_management::seed_bag::SeedBag;

#[test]
fn bed_centres_sit_on_the_lattice() {
    assert_eq!(bed_center_x(0), -64);
    assert_eq!(bed_center_x(2), 0);
    assert_eq!(bed_center_x(4), 64);
    assert_eq!(bed_center_y(0), -96);
    assert_eq!(bed_center_y(1), -64);
    assert_eq!(bed_center_y(3), 0);
}

#[test]
fn hit_test_finds_the_bed_under_the_point() {
    // (3, -60) lies strictly inside bed (2, 1)'s square, centred at (0, -64)
    assert_eq!(hit_test(3, -60), Some((2, 1)));
    // a bed centre is a hit on that bed
    assert_eq!(hit_test(-64, -96), Some((0, 0)));
    assert_eq!(hit_test(64, 0), Some((4, 3)));
}

#[test]
fn hit_test_misses_points_off_the_grid() {
    assert_eq!(hit_test(1000, 1000), None);
    assert_eq!(hit_test(-81, -96), None);  // just past the left edge
    assert_eq!(hit_test(0, 17), None);  // just past the top edge
}

#[test]
fn shared_edges_go_to_the_first_bed_in_row_major_order() {
    // (16, -64) lies on the edge shared by beds (2, 1) and (3, 1)
    assert_eq!(hit_test(16, -64), Some((2, 1)));
    // (16, -48) lies on the corner shared by (2, 1), (2, 2), (3, 1), (3, 2)
    assert_eq!(hit_test(16, -48), Some((2, 1)));
}

#[test]
fn click_plants_the_selected_species() {
    let mut grid = BedGrid::new();
    let bag = SeedBag::new();  // Kumara selected
    let hit = tick(&mut grid, &bag, Some((3, -60)), true);
    assert_eq!(hit, Some((2, 1)));
    assert_eq!(grid.bed_at(2, 1).unwrap().plant.unwrap().name, "Kumara");
    for r in 0..ROWS {
        for c in 0..COLUMNS {
            if (r, c) == (2, 1) {
                assert_eq!(grid.hover_scale_tenths(r, c).unwrap(), HOVER_SCALE_TENTHS);
            } else {
                assert!(grid.bed_at(r, c).unwrap().plant.is_none());
                assert_eq!(grid.hover_scale_tenths(r, c).unwrap(), NEUTRAL_SCALE_TENTHS);
            }
        }
    }
    // the bag is not consumed by planting
    assert_eq!(bag.seeds.len(), 3);
}

#[test]
fn click_on_an_occupied_bed_is_a_no_op() {
    let mut grid = BedGrid::new();
    grid.plant(2, 1, manuka()).unwrap();
    let bag = SeedBag::new();  // Kumara selected
    let hit = tick(&mut grid, &bag, Some((3, -60)), true);
    assert_eq!(hit, Some((2, 1)));
    // the bed keeps what it held; the click raised no error
    assert_eq!(grid.bed_at(2, 1).unwrap().plant.unwrap().name, "Manuka");
    assert_eq!(grid.hover_scale_tenths(2, 1).unwrap(), HOVER_SCALE_TENTHS);
}

#[test]
fn absent_pointer_changes_nothing() {
    let mut grid = BedGrid::new();
    let bag = SeedBag::new();
    // hover bed (2, 1) first, so a change would be visible
    tick(&mut grid, &bag, Some((3, -60)), false);
    assert_eq!(grid.hover_scale_tenths(2, 1).unwrap(), HOVER_SCALE_TENTHS);
    let hit = tick(&mut grid, &bag, None, true);
    assert_eq!(hit, None);
    // no hover change, no planting attempt, no failure
    assert_eq!(grid.hover_scale_tenths(2, 1).unwrap(), HOVER_SCALE_TENTHS);
    for r in 0..ROWS {
        for c in 0..COLUMNS {
            assert!(grid.bed_at(r, c).unwrap().plant.is_none());
        }
    }
}

#[test]
fn pointer_outside_every_square_hovers_nothing() {
    let mut grid = BedGrid::new();
    let bag = SeedBag::new();
    tick(&mut grid, &bag, Some((3, -60)), false);  // leave a stale hover behind
    let hit = tick(&mut grid, &bag, Some((1000, 1000)), true);
    assert_eq!(hit, None);
    for r in 0..ROWS {
        for c in 0..COLUMNS {
            assert_eq!(grid.hover_scale_tenths(r, c).unwrap(), NEUTRAL_SCALE_TENTHS);
            assert!(grid.bed_at(r, c).unwrap().plant.is_none());
        }
    }
}

#[test]
fn exactly_one_bed_hovers_under_a_strictly_interior_point() {
    let mut grid = BedGrid::new();
    let bag = SeedBag::new();
    tick(&mut grid, &bag, Some((3, -60)), false);
    let mut hovered = 0;
    for r in 0..ROWS {
        for c in 0..COLUMNS {
            if grid.hover_scale_tenths(r, c).unwrap() == HOVER_SCALE_TENTHS {
                hovered += 1;
                assert_eq!((r, c), (2, 1));
            }
        }
    }
    assert_eq!(hovered, 1);
}

#[test]
fn hover_moves_with_the_pointer() {
    let mut grid = BedGrid::new();
    let bag = SeedBag::new();
    tick(&mut grid, &bag, Some((3, -60)), false);
    assert_eq!(grid.hover_scale_tenths(2, 1).unwrap(), HOVER_SCALE_TENTHS);
    tick(&mut grid, &bag, Some((-64, -96)), false);
    assert_eq!(grid.hover_scale_tenths(2, 1).unwrap(), NEUTRAL_SCALE_TENTHS);
    assert_eq!(grid.hover_scale_tenths(0, 0).unwrap(), HOVER_SCALE_TENTHS);
}

#[test]
fn click_without_a_press_edge_plants_nothing() {
    let mut grid = BedGrid::new();
    let bag = SeedBag::new();
    let hit = tick(&mut grid, &bag, Some((3, -60)), false);
    assert_eq!(hit, Some((2, 1)));
    assert!(grid.bed_at(2, 1).unwrap().plant.is_none());
}

#[test]
fn click_with_an_empty_bag_plants_nothing() {
    let mut grid = BedGrid::new();
    let bag = SeedBag::empty();
    let hit = tick(&mut grid, &bag, Some((3, -60)), true);
    assert_eq!(hit, Some((2, 1)));
    assert!(grid.bed_at(2, 1).unwrap().plant.is_none());
}

#[test]
fn selection_decides_what_is_planted() {
    let mut grid = BedGrid::new();
    let mut bag = SeedBag::new();
    bag.select(2).unwrap();
    tick(&mut grid, &bag, Some((3, -60)), true);
    assert_eq!(grid.bed_at(2, 1).unwrap().plant.unwrap().name, "Puha");
}

#[test]
fn second_click_on_the_same_bed_changes_nothing() {
    let mut grid = BedGrid::new();
    let mut bag = SeedBag::new();
    tick(&mut grid, &bag, Some((3, -60)), true);
    bag.select(1).unwrap();
    tick(&mut grid, &bag, Some((3, -60)), true);
    // the first planting wins; the second click is the deferred inspect stub
    assert_eq!(grid.bed_at(2, 1).unwrap().plant.unwrap().name, "Kumara");
}
