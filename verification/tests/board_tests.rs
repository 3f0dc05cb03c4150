use term_life::board::step_board;

fn make_grid(n: usize, live: &[(usize, usize)]) -> Vec<Vec<bool>> {
    let mut g = vec![vec![false; n]; n];
    for &(i, j) in live {
        g[i][j] = true;
    }
    g
}

fn live_cells(g: &[Vec<bool>]) -> Vec<(usize, usize)> {
    let mut out = Vec::new();
    for (i, row) in g.iter().enumerate() {
        for (j, &c) in row.iter().enumerate() {
            if c {
                out.push((i, j));
            }
        }
    }
    out
}

#[test]
fn single_cell_dies() {
    let g = make_grid(3, &[(1, 1)]);
    let next = step_board(&g);
    assert_eq!(live_cells(&next), vec![]);
}

#[test]
fn corner_cell_dies() {
    let g = make_grid(3, &[(0, 0)]);
    let next = step_board(&g);
    assert_eq!(live_cells(&next), vec![]);
}

#[test]
fn block_is_still_life() {
    let g = make_grid(4, &[(1, 1), (1, 2), (2, 1), (2, 2)]);
    let next = step_board(&g);
    assert_eq!(next, g);
}

#[test]
fn block_in_corner_is_still_life() {
    let g = make_grid(4, &[(0, 0), (0, 1), (1, 0), (1, 1)]);
    let next = step_board(&g);
    assert_eq!(next, g);
}

#[test]
fn blinker_oscillates_with_period_two() {
    let horizontal = make_grid(5, &[(2, 1), (2, 2), (2, 3)]);
    let vertical = make_grid(5, &[(1, 2), (2, 2), (3, 2)]);
    let once = step_board(&horizontal);
    assert_eq!(once, vertical);
    let twice = step_board(&once);
    assert_eq!(twice, horizontal);
}

#[test]
fn edges_do_not_wrap() {
    // Live cells in all four corners: with wrap-around each corner would see
    // three neighbors and survive; without it each is isolated and dies.
    let g = make_grid(4, &[(0, 0), (0, 3), (3, 0), (3, 3)]);
    let next = step_board(&g);
    assert_eq!(live_cells(&next), vec![]);
}

#[test]
fn far_edge_does_not_feed_corner() {
    // A live corner plus a fully live opposite row and column: only the three
    // in-grid neighbors of (0,0) matter, and all of them are dead, so (0,0)
    // dies even though the wrapped positions would be alive.
    let g = make_grid(
        4,
        &[(0, 0), (3, 0), (3, 1), (3, 2), (3, 3), (0, 3), (1, 3), (2, 3)],
    );
    let next = step_board(&g);
    assert!(!next[0][0]);
}

#[test]
fn birth_on_exactly_three_neighbors() {
    let g = make_grid(5, &[(1, 1), (1, 3), (3, 2)]);
    let next = step_board(&g);
    // The dead center has exactly three live neighbors and is born; each of
    // the three live cells has fewer than two and dies.
    assert_eq!(live_cells(&next), vec![(2, 2)]);
}

#[test]
fn overcrowded_cell_dies() {
    // The center of a plus sign has four live neighbors and dies.
    let g = make_grid(5, &[(1, 2), (2, 1), (2, 2), (2, 3), (3, 2)]);
    let next = step_board(&g);
    assert!(!next[2][2]);
}

#[test]
fn empty_grid_stays_empty() {
    let g = make_grid(6, &[]);
    let next = step_board(&g);
    assert_eq!(next, g);
}
