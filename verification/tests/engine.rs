use game_of_life::Cell;
use game_of_life::Universe;

/// Checks that exactly the cells in `alive` are `Alive` and every other
/// cell of the square grid is `Dead`.
fn assert_exactly_alive(u: &Universe, alive: &[(u32, u32)]) {
    for row in 0..u.height() {
        for col in 0..u.width() {
            let expected = alive.contains(&(row, col));
            let got = u.read(row, col) == Cell::Alive;
            assert_eq!(got, expected, "cell ({}, {})", row, col);
        }
    }
}

#[test]
fn new_grid_is_all_dead_with_square_dimensions() {
    let u = Universe::new(3);
    assert_eq!(u.width(), 3);
    assert_eq!(u.height(), 3);
    assert_exactly_alive(&u, &[]);
}

#[test]
fn toggle_flips_only_the_target_cell() {
    let mut u = Universe::new(3);
    u.toggle_cell(1, 2);
    assert_exactly_alive(&u, &[(1, 2)]);
}

#[test]
fn toggle_twice_restores_the_original_state() {
    let mut u = Universe::new(3);
    u.toggle_cell(0, 1);
    u.toggle_cell(2, 2);
    u.toggle_cell(2, 2);
    assert_exactly_alive(&u, &[(0, 1)]);
}

#[test]
fn corner_cells_are_diagonal_neighbors_across_the_wrap() {
    let mut u = Universe::new(3);
    u.toggle_cell(2, 2);
    assert_eq!(u.live_neighbor_count(0, 0), 1);
    u.toggle_cell(0, 0);
    assert_eq!(u.live_neighbor_count(2, 2), 1);
}

#[test]
fn neighbor_count_is_at_most_eight() {
    let mut u = Universe::new(3);
    for row in 0..3 {
        for col in 0..3 {
            u.toggle_cell(row, col);
        }
    }
    assert_eq!(u.live_neighbor_count(1, 1), 8);
    assert_eq!(u.live_neighbor_count(0, 0), 8);
    assert_eq!(u.live_neighbor_count(2, 2), 8);
}

#[test]
fn all_dead_grid_stays_all_dead() {
    let mut u = Universe::new(3);
    u.tick();
    assert_exactly_alive(&u, &[]);
}

#[test]
fn a_lone_cell_dies_of_underpopulation() {
    let mut u = Universe::new(3);
    u.toggle_cell(1, 1);
    u.tick();
    assert_exactly_alive(&u, &[]);
}

#[test]
fn blinker_oscillates_with_period_two() {
    let mut u = Universe::new(5);
    u.toggle_cell(1, 0);
    u.toggle_cell(1, 1);
    u.toggle_cell(1, 2);
    u.tick();
    assert_exactly_alive(&u, &[(0, 1), (1, 1), (2, 1)]);
    u.tick();
    assert_exactly_alive(&u, &[(1, 0), (1, 1), (1, 2)]);
}

#[test]
fn block_is_a_still_life() {
    let mut u = Universe::new(4);
    let block = [(1, 1), (1, 2), (2, 1), (2, 2)];
    for &(row, col) in block.iter() {
        u.toggle_cell(row, col);
    }
    for _ in 0..3 {
        u.tick();
        assert_exactly_alive(&u, &block);
    }
}

#[test]
fn randomize_overwrites_cells_and_keeps_dimensions() {
    let mut u = Universe::new(3);
    let draws: Vec<bool> = (0..9).map(|i| i % 2 == 0).collect();
    u.randomize(&draws);
    assert_eq!(u.width(), 3);
    assert_eq!(u.height(), 3);
    assert_exactly_alive(&u, &[(0, 0), (0, 2), (1, 1), (2, 0), (2, 2)]);

    let all_dead = vec![false; 9];
    u.randomize(&all_dead);
    assert_eq!((u.width(), u.height()), (3, 3));
    assert_exactly_alive(&u, &[]);
}

#[test]
fn packed_view_exposes_one_bit_per_cell() {
    let mut u = Universe::new(3);
    u.toggle_cell(0, 0);
    u.toggle_cell(1, 2);
    let words = u.cells();
    assert_eq!(words.len(), 1);
    assert_eq!(words[0], (1 << 0) | (1 << 5));
}

#[test]
fn render_produces_the_empty_string() {
    let u = Universe::new(2);
    assert_eq!(u.render(), "");
}
