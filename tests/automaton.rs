use cellular_automaton::{
    compute_grid, decode_rule, fixed_seed_row, neighborhood_index, next_generation,
    random_seed_row, update_cell_grid, Cell, CellGrid, CellSettings, CellState, RuleChanged,
};

fn alive(g: &CellGrid, x: usize, y: usize) -> bool {
    g.state_at(x, y) == CellState::Alive
}

fn row(g: &CellGrid, y: usize) -> Vec<bool> {
    (0..g.width()).map(|x| alive(g, x, y)).collect()
}

fn code(prev: &[bool], i: usize) -> usize {
    let n = prev.len();
    let mut c = 0;
    if i > 0 && prev[i - 1] {
        c += 4;
    }
    if i + 1 < n && prev[i + 1] {
        c += 2;
    }
    if prev[i] {
        c += 1;
    }
    c
}

fn assert_follows_rule(g: &CellGrid, rule: &[bool; 8]) {
    for y in 1..g.width() {
        let prev = row(g, y - 1);
        for x in 0..g.width() {
            assert_eq!(alive(g, x, y), rule[code(&prev, x)], "cell ({}, {})", x, y);
        }
    }
}

#[test]
fn decode_rule_thirty() {
    let r = decode_rule(30);
    assert_eq!(r, [false, true, true, true, true, false, false, false]);
    for k in [1, 2, 3, 4] {
        assert!(r[k]);
    }
    for k in [0, 5, 6, 7] {
        assert!(!r[k]);
    }
}

#[test]
fn decode_rule_extremes() {
    assert_eq!(decode_rule(0), [false; 8]);
    assert_eq!(decode_rule(255), [true; 8]);
    assert_eq!(decode_rule(0b1000_0001), [true, false, false, false, false, false, false, true]);
    assert_eq!(decode_rule(90), [false, true, false, true, true, false, true, false]);
}

#[test]
fn decode_rule_matches_bits_and_is_pure() {
    for n in 0..=255u8 {
        let first = decode_rule(n);
        let second = decode_rule(n);
        assert_eq!(first, second);
        for k in 0..8 {
            assert_eq!(first[k], (n >> k) & 1 == 1);
        }
    }
}

#[test]
fn fixed_seed_has_single_middle_cell() {
    for n in 1..=20u32 {
        let g = compute_grid(n, 30, false);
        assert_eq!(g.width(), n as usize);
        let first = row(&g, 0);
        let live: Vec<usize> = (0..first.len()).filter(|&x| first[x]).collect();
        assert_eq!(live, vec![(n / 2) as usize]);
    }
}

#[test]
fn fixed_seed_row_values() {
    assert_eq!(fixed_seed_row(0), Vec::<bool>::new());
    assert_eq!(fixed_seed_row(1), vec![true]);
    assert_eq!(fixed_seed_row(4), vec![false, false, true, false]);
    assert_eq!(fixed_seed_row(5), vec![false, false, true, false, false]);
}

#[test]
fn zero_width_grid_is_empty() {
    let g = compute_grid(0, 30, false);
    assert_eq!(g.width(), 0);
    assert!(g.grid.is_empty());
    let r = compute_grid(0, 110, true);
    assert_eq!(r.width(), 0);
}

#[test]
fn rule_thirty_first_rows() {
    let g = compute_grid(5, 30, false);
    assert_eq!(row(&g, 0), vec![false, false, true, false, false]);
    assert_eq!(row(&g, 1), vec![false, true, true, true, false]);
    assert_eq!(row(&g, 2), vec![true, true, false, false, true]);
}

#[test]
fn every_cell_follows_rule() {
    for rule_num in [0u8, 1, 4, 30, 90, 110, 150, 184, 255] {
        for n in [1u32, 2, 3, 8, 17] {
            let g = compute_grid(n, rule_num, false);
            assert_follows_rule(&g, &decode_rule(rule_num));
        }
    }
}

#[test]
fn edge_columns_treat_missing_neighbours_as_dead() {
    // Rule 4 keeps alive only the cells whose upper-right neighbour alone was alive.
    let g = compute_grid(2, 4, false);
    assert_eq!(row(&g, 0), vec![false, true]);
    assert_eq!(row(&g, 1), vec![true, false]);
    // Rule 1 makes alive only the cells with three dead upper neighbours.
    let g = compute_grid(3, 1, false);
    assert_eq!(row(&g, 1), vec![false, false, false]);
    assert_eq!(row(&g, 2), vec![true, true, true]);
    let prev = vec![true, false, true];
    assert_eq!(neighborhood_index(&prev, 0), 1);
    assert_eq!(neighborhood_index(&prev, 1), 6);
    assert_eq!(neighborhood_index(&prev, 2), 1);
    let single = vec![true];
    assert_eq!(neighborhood_index(&single, 0), 1);
}

#[test]
fn next_generation_values() {
    let rule = decode_rule(110);
    let prev = vec![false, false, false, true];
    assert_eq!(next_generation(&rule, &prev), vec![false, false, true, true]);
    assert_eq!(next_generation(&rule, &Vec::new()), Vec::<bool>::new());
}

#[test]
fn update_cell_grid_from_given_seed() {
    let rule = decode_rule(90);
    let seed = vec![true, false, false, false];
    let g = update_cell_grid(&rule, &seed);
    assert_eq!(g.width(), 4);
    assert_eq!(row(&g, 0), seed);
    assert_eq!(row(&g, 1), vec![true, true, false, false]);
    assert_eq!(row(&g, 2), vec![true, false, true, false]);
    assert_eq!(row(&g, 3), vec![true, true, true, true]);
    assert_follows_rule(&g, &rule);
}

#[test]
fn random_seed_grid_follows_rule() {
    let row0 = random_seed_row(33);
    assert_eq!(row0.len(), 33);
    for _ in 0..5 {
        let g = compute_grid(17, 30, true);
        assert_eq!(g.width(), 17);
        assert_follows_rule(&g, &decode_rule(30));
    }
}

#[test]
fn random_seed_row_is_not_constant() {
    let rows: Vec<Vec<bool>> = (0..8).map(|_| random_seed_row(64)).collect();
    assert!(rows.iter().flatten().any(|&b| b));
    assert!(rows.iter().flatten().any(|&b| !b));
}

#[test]
fn grid_cells_know_their_positions() {
    let g = compute_grid(6, 30, false);
    for x in 0..6usize {
        assert_eq!(g.grid[x].len(), 6);
        for y in 0..6usize {
            let c: Cell = g.grid[x][y];
            assert_eq!(c.position_x, x as u32);
            assert_eq!(c.position_y, y as u32);
        }
    }
}

#[test]
fn new_grid_is_dead() {
    let g = CellGrid::new(4);
    assert_eq!(g.width(), 4);
    for x in 0..4 {
        for y in 0..4 {
            assert_eq!(g.state_at(x, y), CellState::Dead);
            assert_eq!(g.grid[x][y].position_x, x as u32);
            assert_eq!(g.grid[x][y].position_y, y as u32);
        }
    }
}

#[test]
fn rule_wraps_at_both_ends() {
    let mut s = CellSettings::new(65, 0);
    assert_eq!(s.previous_rule(), 255);
    assert_eq!(s.rule_num, 255);
    assert_eq!(s.rule, [true; 8]);
    assert_eq!(s.next_rule(), 0);
    assert_eq!(s.rule_num, 0);
    assert_eq!(s.rule, [false; 8]);
    assert_eq!(s.next_rule(), 1);
    assert_eq!(s.rule, decode_rule(1));
    assert_eq!(s.num_cells, 65);
}

#[test]
fn scroll_moves_rule_with_wrapping() {
    let mut s = CellSettings::new(9, 250);
    assert_eq!(s.scroll_rule(true, 10), 4);
    assert_eq!(s.rule, decode_rule(4));
    assert_eq!(s.scroll_rule(false, 5), 255);
    assert_eq!(s.scroll_rule(false, 0), 255);
    assert_eq!(s.scroll_rule(true, 31), 30);
    assert_eq!(s.rule, decode_rule(30));
}

#[test]
fn settings_start_and_toggle() {
    let mut s = CellSettings::new(65, 30);
    assert_eq!(s.num_cells, 65);
    assert_eq!(s.rule_num, 30);
    assert_eq!(s.rule, decode_rule(30));
    assert!(!s.random);
    assert_eq!(s.toggle_random(), 30);
    assert!(s.random);
    assert_eq!(s.toggle_random(), 30);
    assert!(!s.random);
}

#[test]
fn rule_changed_flags() {
    let mut f = RuleChanged::new();
    assert!(!f.updated_cell_grid && !f.updated_sprites);
    f.updated_cell_grid = true;
    f.updated_sprites = true;
    f.mark_changed();
    assert_eq!(f, RuleChanged { updated_cell_grid: false, updated_sprites: false });
}

#[test]
fn cell_state_conversions() {
    assert_eq!(CellState::from_alive(true), CellState::Alive);
    assert_eq!(CellState::from_alive(false), CellState::Dead);
    assert!(CellState::Alive.is_alive());
    assert!(!CellState::Dead.is_alive());
}
