//! The board simulator: a square grid of boolean cells and the
//! neighbor-count transition rule, with non-wrapping edges.

use vstd::prelude::*;

verus! {

/// The mathematical value of a grid: each row of the vector as a sequence.
pub open spec fn grid_of(b: Vec<Vec<bool>>) -> Seq<Seq<bool>> {
    b@.map_values(|row: Vec<bool>| row@)
}

/// A grid is well formed when it is square: every row is as long as the
/// number of rows.
pub open spec fn grid_wf(g: Seq<Seq<bool>>) -> bool {
    forall|i: int| 0 <= i < g.len() ==> #[trigger] g[i].len() == g.len()
}

/// True when `(i, j)` lies inside the grid and that cell is alive. Cells
/// outside the bounds count as dead: edges do not wrap.
pub open spec fn live_at(g: Seq<Seq<bool>>, i: int, j: int) -> bool {
    0 <= i < g.len() && 0 <= j < g[i].len() && g[i][j]
}

/// One if the condition holds, zero otherwise.
pub open spec fn cell_weight(b: bool) -> int {
    if b {
        1
    } else {
        0
    }
}

/// How many of the up-to-eight grid-adjacent neighbors of `(i, j)` are alive.
/// Out-of-bounds positions contribute nothing.
pub open spec fn neighbor_count(g: Seq<Seq<bool>>, i: int, j: int) -> int {
    cell_weight(live_at(g, i - 1, j - 1)) + cell_weight(live_at(g, i - 1, j)) + cell_weight(
        live_at(g, i - 1, j + 1),
    ) + cell_weight(live_at(g, i, j - 1)) + cell_weight(live_at(g, i, j + 1)) + cell_weight(
        live_at(g, i + 1, j - 1),
    ) + cell_weight(live_at(g, i + 1, j)) + cell_weight(live_at(g, i + 1, j + 1))
}

/// The transition rule for one cell: alive in the next generation exactly
/// when it has three live neighbors, or two live neighbors and is alive now.
pub open spec fn next_cell(g: Seq<Seq<bool>>, i: int, j: int) -> bool {
    neighbor_count(g, i, j) == 3 || (neighbor_count(g, i, j) == 2 && live_at(g, i, j))
}

/// The whole next generation: the rule applied to every cell of the grid,
/// each evaluated against the current generation.
pub open spec fn step_grid(g: Seq<Seq<bool>>) -> Seq<Seq<bool>> {
    Seq::new(g.len(), |i: int| Seq::new(g.len(), |j: int| next_cell(g, i, j)))
}

/// Stepping preserves well-formedness: the next generation is square too.
pub proof fn lemma_step_grid_wf(g: Seq<Seq<bool>>)
    ensures
        grid_wf(step_grid(g)),
        step_grid(g).len() == g.len(),
{
}

/// Law: edges do not wrap. The corner cell `(0, 0)` receives neighbor
/// contributions only from its three in-grid neighbors; no position of the
/// form `(g.len() - 1, _)` or `(_, g.len() - 1)` reached by wrapping ever
/// contributes.
pub proof fn lemma_corner_no_wrap(g: Seq<Seq<bool>>)
    ensures
        neighbor_count(g, 0, 0) == cell_weight(live_at(g, 0, 1)) + cell_weight(live_at(g, 1, 0))
            + cell_weight(live_at(g, 1, 1)),
{
}

/// Exactly the cells of the 2-by-2 block with top-left corner `(r, c)` are
/// alive.
pub open spec fn block_only(g: Seq<Seq<bool>>, r: int, c: int) -> bool {
    forall|i: int, j: int|
        #[trigger] live_at(g, i, j) <==> (r <= i <= r + 1 && c <= j <= c + 1)
}

/// Law: the 2-by-2 block still life is a fixed point of the transition rule.
/// If exactly the four cells of a block inside the grid are alive, one step
/// leaves the grid unchanged.
pub proof fn lemma_block_stable(g: Seq<Seq<bool>>, r: int, c: int)
    requires
        grid_wf(g),
        0 <= r,
        r + 1 < g.len(),
        0 <= c,
        c + 1 < g.len(),
        block_only(g, r, c),
    ensures
        step_grid(g) =~~= g,
{
    assert forall|i: int, j: int| 0 <= i < g.len() && 0 <= j < g.len() implies next_cell(g, i, j)
        == g[i][j] by {
        assert(live_at(g, i, j) == g[i][j]);
    }
    assert(step_grid(g) =~~= g);
}

/// Exactly the three cells of a horizontal line centered at `(r, c)` are
/// alive.
pub open spec fn horizontal_blinker(g: Seq<Seq<bool>>, r: int, c: int) -> bool {
    forall|i: int, j: int| #[trigger] live_at(g, i, j) <==> (i == r && c - 1 <= j <= c + 1)
}

/// Exactly the three cells of a vertical line centered at `(r, c)` are alive.
pub open spec fn vertical_blinker(g: Seq<Seq<bool>>, r: int, c: int) -> bool {
    forall|i: int, j: int| #[trigger] live_at(g, i, j) <==> (j == c && r - 1 <= i <= r + 1)
}

/// Law: one step turns a horizontal blinker into the vertical blinker with
/// the same center, on an otherwise-dead grid.
pub proof fn lemma_blinker_horizontal_to_vertical(g: Seq<Seq<bool>>, r: int, c: int)
    requires
        grid_wf(g),
        1 <= r,
        r + 1 < g.len(),
        1 <= c,
        c + 1 < g.len(),
        horizontal_blinker(g, r, c),
    ensures
        vertical_blinker(step_grid(g), r, c),
{
    assert forall|i: int, j: int| #[trigger] live_at(step_grid(g), i, j) <==> (j == c && r - 1 <= i
        <= r + 1) by {
        if 0 <= i < g.len() && 0 <= j < g.len() {
            assert(live_at(step_grid(g), i, j) == next_cell(g, i, j));
        }
    }
}

/// Law: one step turns a vertical blinker into the horizontal blinker with
/// the same center, on an otherwise-dead grid.
pub proof fn lemma_blinker_vertical_to_horizontal(g: Seq<Seq<bool>>, r: int, c: int)
    requires
        grid_wf(g),
        1 <= r,
        r + 1 < g.len(),
        1 <= c,
        c + 1 < g.len(),
        vertical_blinker(g, r, c),
    ensures
        horizontal_blinker(step_grid(g), r, c),
{
    assert forall|i: int, j: int| #[trigger] live_at(step_grid(g), i, j) <==> (i == r && c - 1 <= j
        <= c + 1) by {
        if 0 <= i < g.len() && 0 <= j < g.len() {
            assert(live_at(step_grid(g), i, j) == next_cell(g, i, j));
        }
    }
}

/// Law: the blinker is a period-two oscillator. Two steps return a
/// horizontal blinker grid to exactly its starting contents.
pub proof fn lemma_blinker_period_two(g: Seq<Seq<bool>>, r: int, c: int)
    requires
        grid_wf(g),
        1 <= r,
        r + 1 < g.len(),
        1 <= c,
        c + 1 < g.len(),
        horizontal_blinker(g, r, c),
    ensures
        step_grid(step_grid(g)) =~~= g,
{
    lemma_blinker_horizontal_to_vertical(g, r, c);
    lemma_step_grid_wf(g);
    lemma_blinker_vertical_to_horizontal(step_grid(g), r, c);
    lemma_step_grid_wf(step_grid(g));
    let g2 = step_grid(step_grid(g));
    assert forall|i: int, j: int| 0 <= i < g.len() && 0 <= j < g.len() implies g2[i][j]
        == g[i][j] by {
        assert(live_at(g2, i, j) == g2[i][j]);
        assert(live_at(g, i, j) == g[i][j]);
    }
    assert(step_grid(step_grid(g)) =~~= g);
}

/// In a well-formed grid every row of the underlying vector has the side
/// length; this restates `grid_wf` directly over the vector's rows.
pub proof fn lemma_grid_rows(cells: Vec<Vec<bool>>)
    requires
        grid_wf(grid_of(cells)),
    ensures
        forall|a: int| 0 <= a < cells@.len() ==> #[trigger] cells@[a]@.len() == cells@.len(),
{
    assert forall|a: int| 0 <= a < cells@.len() implies #[trigger] cells@[a]@.len()
        == cells@.len() by {
        assert(grid_of(cells)[a].len() == grid_of(cells).len());
    }
}

/// Count the live neighbors of cell `(i, j)`.
fn count_neighbors(cells: &Vec<Vec<bool>>, i: usize, j: usize) -> (c: u8)
    requires
        grid_wf(grid_of(*cells)),
        i < cells.len(),
        j < cells.len(),
    ensures
        c as int == neighbor_count(grid_of(*cells), i as int, j as int),
{
    proof {
        lemma_grid_rows(*cells);
    }
    let n = cells.len();
    let mut c: u8 = 0;
    if i > 0 {
        if j > 0 && cells[i - 1][j - 1] {
            c = c + 1;
        }
        if cells[i - 1][j] {
            c = c + 1;
        }
        if j + 1 < n && cells[i - 1][j + 1] {
            c = c + 1;
        }
    }
    if j > 0 && cells[i][j - 1] {
        c = c + 1;
    }
    if j + 1 < n && cells[i][j + 1] {
        c = c + 1;
    }
    if i + 1 < n {
        if j > 0 && cells[i + 1][j - 1] {
            c = c + 1;
        }
        if cells[i + 1][j] {
            c = c + 1;
        }
        if j + 1 < n && cells[i + 1][j + 1] {
            c = c + 1;
        }
    }
    c
}

/// Compute the next generation of a square grid. Pure: the argument is read
/// against a single snapshot, never partially updated data.
pub fn step_board(cells: &Vec<Vec<bool>>) -> (next: Vec<Vec<bool>>)
    requires
        grid_wf(grid_of(*cells)),
    ensures
        grid_of(next) == step_grid(grid_of(*cells)),
        next.len() == cells.len(),
{
    let n = cells.len();
    let mut next: Vec<Vec<bool>> = Vec::new();
    let mut i: usize = 0;
    while i < n
        invariant
            grid_wf(grid_of(*cells)),
            n == cells.len(),
            i <= n,
            next@.len() == i,
            forall|a: int| 0 <= a < i ==> #[trigger] next@[a]@.len() == n,
            forall|a: int, b: int|
                0 <= a < i && 0 <= b < n ==> #[trigger] next@[a]@[b] == next_cell(
                    grid_of(*cells),
                    a,
                    b,
                ),
        decreases n - i,
    {
        let mut row: Vec<bool> = Vec::new();
        let mut j: usize = 0;
        while j < n
            invariant
                grid_wf(grid_of(*cells)),
                n == cells.len(),
                i < n,
                j <= n,
                row@.len() == j,
                forall|b: int|
                    0 <= b < j ==> #[trigger] row@[b] == next_cell(grid_of(*cells), i as int, b),
            decreases n - j,
        {
            let c = count_neighbors(cells, i, j);
            proof {
                lemma_grid_rows(*cells);
                assert(live_at(grid_of(*cells), i as int, j as int) == cells@[i as int]@[j as int]);
            }
            let alive = c == 3 || (c == 2 && cells[i][j]);
            row.push(alive);
            j = j + 1;
        }
        next.push(row);
        i = i + 1;
    }
    proof {
        assert(grid_of(next) =~~= step_grid(grid_of(*cells)));
    }
    next
}

} // verus!
