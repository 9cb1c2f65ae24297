use led_life::life::{count_neighbors, invert_board, is_empty, life, Grid};

const GLIDER: Grid = [
    [0, 0, 0, 0, 0],
    [0, 0, 1, 0, 0],
    [0, 0, 0, 1, 0],
    [0, 1, 1, 1, 0],
    [0, 0, 0, 0, 0],
];

#[test]
fn blinker_oscillates_with_period_two() {
    let horizontal: Grid = [
        [0, 0, 0, 0, 0],
        [0, 0, 0, 0, 0],
        [0, 1, 1, 1, 0],
        [0, 0, 0, 0, 0],
        [0, 0, 0, 0, 0],
    ];
    let vertical: Grid = [
        [0, 0, 0, 0, 0],
        [0, 0, 1, 0, 0],
        [0, 0, 1, 0, 0],
        [0, 0, 1, 0, 0],
        [0, 0, 0, 0, 0],
    ];
    let mut g = horizontal;
    life(&mut g);
    assert_eq!(g, vertical);
    life(&mut g);
    assert_eq!(g, horizontal);
}

#[test]
fn glider_translates_by_one_one_every_four_generations() {
    let mut g = GLIDER;
    for _ in 0..4 {
        life(&mut g);
    }
    let mut shifted: Grid = [[0; 5]; 5];
    for r in 0..4 {
        for c in 0..4 {
            shifted[r + 1][c + 1] = GLIDER[r][c];
        }
    }
    assert_eq!(g, shifted);
}

#[test]
fn first_glider_generation_matches_hand_computation() {
    let mut g = GLIDER;
    life(&mut g);
    let expected: Grid = [
        [0, 0, 0, 0, 0],
        [0, 0, 0, 0, 0],
        [0, 1, 0, 1, 0],
        [0, 0, 1, 1, 0],
        [0, 0, 1, 0, 0],
    ];
    assert_eq!(g, expected);
}

#[test]
fn all_dead_grid_is_a_fixed_point() {
    let mut g: Grid = [[0; 5]; 5];
    life(&mut g);
    assert_eq!(g, [[0; 5]; 5]);
}

#[test]
fn rule_is_exhaustive_over_neighbor_counts() {
    // the 8 neighbor positions of the center cell (2, 2)
    let neighbors: [(usize, usize); 8] = [
        (1, 1),
        (1, 2),
        (1, 3),
        (2, 1),
        (2, 3),
        (3, 1),
        (3, 2),
        (3, 3),
    ];
    for center_alive in [false, true] {
        for k in 0..=8 {
            let mut g: Grid = [[0; 5]; 5];
            if center_alive {
                g[2][2] = 1;
            }
            for &(r, c) in neighbors.iter().take(k) {
                g[r][c] = 1;
            }
            assert_eq!(count_neighbors(&g, 2, 2), k as u8);
            life(&mut g);
            let expected = if center_alive {
                if k == 2 || k == 3 {
                    1
                } else {
                    0
                }
            } else {
                if k == 3 {
                    1
                } else {
                    0
                }
            };
            assert_eq!(g[2][2], expected, "center_alive={center_alive} k={k}");
        }
    }
}

#[test]
fn border_cells_only_see_in_bounds_neighbors() {
    let all_ones: Grid = [[1; 5]; 5];
    // corners see at most 3 neighbors
    assert_eq!(count_neighbors(&all_ones, 0, 0), 3);
    assert_eq!(count_neighbors(&all_ones, 0, 4), 3);
    assert_eq!(count_neighbors(&all_ones, 4, 0), 3);
    assert_eq!(count_neighbors(&all_ones, 4, 4), 3);
    // edge cells see at most 5
    assert_eq!(count_neighbors(&all_ones, 0, 2), 5);
    assert_eq!(count_neighbors(&all_ones, 2, 0), 5);
    assert_eq!(count_neighbors(&all_ones, 4, 1), 5);
    assert_eq!(count_neighbors(&all_ones, 3, 4), 5);
    // an interior cell sees all 8
    assert_eq!(count_neighbors(&all_ones, 2, 2), 8);
}

#[test]
fn invert_flips_every_cell_and_round_trips() {
    let mut g = GLIDER;
    invert_board(&mut g);
    for r in 0..5 {
        for c in 0..5 {
            assert_eq!(g[r][c], if GLIDER[r][c] == 1 { 0 } else { 1 });
        }
    }
    invert_board(&mut g);
    assert_eq!(g, GLIDER);
}

#[test]
fn emptiness_check_matches_contents() {
    assert!(is_empty(&[[0; 5]; 5]));
    assert!(!is_empty(&GLIDER));
    let mut one_cell: Grid = [[0; 5]; 5];
    one_cell[4][4] = 1;
    assert!(!is_empty(&one_cell));
}
