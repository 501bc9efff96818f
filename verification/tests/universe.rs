use game_of_life::{Cell, Universe};

fn dead_universe(width: u32, height: u32) -> Universe {
    let flips = vec![false; (width * height) as usize];
    Universe::new(width, height, &flips)
}

fn alive_at(u: &Universe, row: u32, col: u32) -> bool {
    u.get_cells()[(row * u.width() + col) as usize] == Cell::Alive
}

fn live_coords(u: &Universe) -> Vec<(u32, u32)> {
    let mut live = Vec::new();
    for row in 0..u.height() {
        for col in 0..u.width() {
            if alive_at(u, row, col) {
                live.push((row, col));
            }
        }
    }
    live
}

#[test]
fn new_length_matches_dimensions() {
    for &(w, h) in &[(1u32, 1u32), (4, 5), (3, 3), (7, 2)] {
        let u = dead_universe(w, h);
        assert_eq!(u.get_cells().len(), (w * h) as usize);
        assert_eq!(u.width(), w);
        assert_eq!(u.height(), h);
    }
}

#[test]
fn new_seeds_cells_from_flips() {
    let u = Universe::new(2, 2, &[true, false, false, true]);
    assert_eq!(
        u.get_cells(),
        &[Cell::Alive, Cell::Dead, Cell::Dead, Cell::Alive]
    );
}

#[test]
fn dead_grid_has_no_live_neighbors() {
    let u = dead_universe(3, 3);
    for row in 0..3 {
        for col in 0..3 {
            assert_eq!(u.live_neighbor_count(row, col), 0);
        }
    }
    let single = dead_universe(1, 1);
    assert_eq!(single.live_neighbor_count(0, 0), 0);
}

#[test]
fn neighbor_count_wraps_around_edges() {
    let mut u = dead_universe(3, 3);
    u.toggle_cell(0, 0);
    // The diagonal wrap neighbor of (0,0) on a 3x3 torus.
    assert_eq!(u.live_neighbor_count(2, 2), 1);
    // On a 5x5 grid, (2,2) is not adjacent to (0,0), wrapped or not.
    let mut far = dead_universe(5, 5);
    far.toggle_cell(0, 0);
    assert_eq!(far.live_neighbor_count(2, 2), 0);
}

#[test]
fn glider_translates_after_four_ticks() {
    let mut u = dead_universe(6, 6);
    u.set_cells(&[(1, 2), (2, 3), (3, 1), (3, 2), (3, 3)]);
    for _ in 0..4 {
        u.tick();
    }
    assert_eq!(
        live_coords(&u),
        vec![(2, 3), (3, 4), (4, 2), (4, 3), (4, 4)]
    );
}

#[test]
fn underpopulation_kills_lone_cell() {
    let mut u = dead_universe(3, 3);
    u.toggle_cell(1, 1);
    assert_eq!(u.live_neighbor_count(1, 1), 0);
    u.tick();
    assert!(live_coords(&u).is_empty());
}

#[test]
fn overpopulation_kills_crowded_cell() {
    let mut u = Universe::new(3, 3, &[true; 9]);
    // Every cell of the full 3x3 torus has all eight neighbors alive.
    assert_eq!(u.live_neighbor_count(1, 1), 8);
    u.tick();
    assert!(live_coords(&u).is_empty());
}

#[test]
fn reproduction_needs_exactly_three_neighbors() {
    // Three live neighbors: the dead center cell comes alive.
    let mut three = dead_universe(3, 3);
    three.set_cells(&[(0, 0), (0, 1), (0, 2)]);
    assert_eq!(three.live_neighbor_count(1, 1), 3);
    three.tick();
    assert!(alive_at(&three, 1, 1));

    // Two live neighbors: the dead center cell stays dead.
    let mut two = dead_universe(3, 3);
    two.set_cells(&[(0, 0), (0, 1)]);
    assert_eq!(two.live_neighbor_count(1, 1), 2);
    two.tick();
    assert!(!alive_at(&two, 1, 1));

    // Four live neighbors: the dead center cell stays dead.
    let mut four = dead_universe(3, 3);
    four.set_cells(&[(0, 0), (0, 1), (0, 2), (1, 0)]);
    assert_eq!(four.live_neighbor_count(1, 1), 4);
    four.tick();
    assert!(!alive_at(&four, 1, 1));
}

#[test]
fn resize_clears_grid_and_recomputes_length() {
    let mut u = Universe::new(4, 4, &[true; 16]);
    u.set_width(7);
    assert_eq!(u.width(), 7);
    assert_eq!(u.height(), 4);
    assert_eq!(u.get_cells().len(), 28);
    assert!(u.get_cells().iter().all(|&c| c == Cell::Dead));

    u.toggle_cell(0, 0);
    u.set_height(2);
    assert_eq!(u.width(), 7);
    assert_eq!(u.height(), 2);
    assert_eq!(u.get_cells().len(), 14);
    assert!(u.get_cells().iter().all(|&c| c == Cell::Dead));

    u.set_width(0);
    assert_eq!(u.get_cells().len(), 0);
    u.set_height(5);
    assert_eq!(u.get_cells().len(), 0);
}

#[test]
fn toggle_cell_is_its_own_inverse() {
    let mut u = Universe::new(3, 3, &[true, false, true, false, true, false, true, false, true]);
    let before: Vec<Cell> = u.get_cells().to_vec();
    u.toggle_cell(1, 2);
    assert_ne!(u.get_cells(), before.as_slice());
    u.toggle_cell(1, 2);
    assert_eq!(u.get_cells(), before.as_slice());
}

#[test]
fn set_cells_is_idempotent_and_only_enlivens() {
    let mut u = Universe::new(4, 4, &[false; 16]);
    u.toggle_cell(3, 3);
    let coords = [(0u32, 1u32), (2, 2), (0, 1), (2, 2)];
    u.set_cells(&coords);
    let once: Vec<Cell> = u.get_cells().to_vec();
    assert!(alive_at(&u, 0, 1));
    assert!(alive_at(&u, 2, 2));
    // A cell that was alive before stays alive.
    assert!(alive_at(&u, 3, 3));
    // An unnamed dead cell stays dead.
    assert!(!alive_at(&u, 1, 1));
    // Applying the same batch again changes nothing.
    u.set_cells(&coords);
    assert_eq!(u.get_cells(), once.as_slice());
    // Order does not matter either.
    let mut reordered = Universe::new(4, 4, &[false; 16]);
    reordered.toggle_cell(3, 3);
    reordered.set_cells(&[(2, 2), (0, 1)]);
    assert_eq!(reordered.get_cells(), once.as_slice());
}

#[test]
fn render_draws_one_glyph_per_cell() {
    let u = Universe::new(2, 2, &[true, false, false, true]);
    assert_eq!(u.render(), "◼◻\n◻◼\n");
    let empty = dead_universe(0, 0);
    assert_eq!(empty.render(), "");
}

#[test]
fn cells_exposes_the_same_buffer_as_get_cells() {
    let u = Universe::new(2, 3, &[true, false, true, false, true, false]);
    assert_eq!(u.cells(), u.get_cells());
}

#[test]
fn reset_reseeds_every_cell_from_flips() {
    let mut u = dead_universe(2, 2);
    u.reset(&[true, true, false, true]);
    assert_eq!(u.width(), 2);
    assert_eq!(u.height(), 2);
    assert_eq!(
        u.get_cells(),
        &[Cell::Alive, Cell::Alive, Cell::Dead, Cell::Alive]
    );
}
