//! The rendering boundary's compute half: lay the visible viewport rectangle
//! of the board out as a row-major frame of characters. Writing the frame to
//! the terminal is the caller's concern.

use vstd::prelude::*;

use crate::board::grid_of;
use crate::board::lemma_grid_rows;
use crate::state::GameState;

verus! {

/// The glyph a live cell is drawn with; dead cells are drawn as spaces.
pub const DISP_CHAR: char = '0';

/// The rendering boundary's failure: the surface is too large for the
/// simulated area.
#[derive(PartialEq, Eq, Structural, Clone, Copy, Debug)]
pub enum RenderError {
    SurfaceTooLarge,
}

/// The character drawn at frame position `(i, j)` for a viewport anchored at
/// `(x, y)`: the live-cell glyph or a space.
pub open spec fn frame_char(g: Seq<Seq<bool>>, x: int, y: int, i: int, j: int) -> char {
    if g[y + i][x + j] {
        DISP_CHAR
    } else {
        ' '
    }
}

/// Lay out the viewport rectangle of the board as one row-major frame of
/// `view_width * view_height` characters. Fails exactly when the surface is
/// too large for the simulated area, that is, when either viewport extent
/// exceeds the grid's side.
pub fn render_viewport(gs: &GameState) -> (r: Result<Vec<char>, RenderError>)
    requires
        gs.wf(),
    ensures
        match r {
            Ok(frame) => {
                &&& gs.view_width <= gs.size()
                &&& gs.view_height <= gs.size()
                &&& frame@.len() == gs.view_height * gs.view_width
                &&& forall|i: int, j: int|
                    0 <= i < gs.view_height && 0 <= j < gs.view_width
                        ==> #[trigger] frame@[i * gs.view_width + j] == frame_char(
                        grid_of(gs.board),
                        gs.view_x as int,
                        gs.view_y as int,
                        i,
                        j,
                    )
            },
            Err(e) => {
                &&& e == RenderError::SurfaceTooLarge
                &&& (gs.view_width > gs.size() || gs.view_height > gs.size())
            },
        },
{
    let n = gs.board.len();
    if gs.view_width > n || gs.view_height > n {
        return Err(RenderError::SurfaceTooLarge);
    }
    proof {
        lemma_grid_rows(gs.board);
    }
    let w = gs.view_width;
    let h = gs.view_height;
    let mut frame: Vec<char> = Vec::new();
    let mut i: usize = 0;
    while i < h
        invariant
            gs.wf(),
            n == gs.board.len(),
            w == gs.view_width,
            h == gs.view_height,
            w <= n,
            h <= n,
            i <= h,
            forall|a: int|
                0 <= a < gs.board@.len() ==> #[trigger] gs.board@[a]@.len() == gs.board@.len(),
            frame@.len() == i * w,
            forall|a: int, b: int|
                0 <= a < i && 0 <= b < w ==> #[trigger] frame@[a * w + b] == frame_char(
                    grid_of(gs.board),
                    gs.view_x as int,
                    gs.view_y as int,
                    a,
                    b,
                ),
        decreases h - i,
    {
        let mut j: usize = 0;
        while j < w
            invariant
                gs.wf(),
                n == gs.board.len(),
                w == gs.view_width,
                h == gs.view_height,
                w <= n,
                h <= n,
                i < h,
                j <= w,
                forall|a: int|
                    0 <= a < gs.board@.len() ==> #[trigger] gs.board@[a]@.len() == gs.board@.len(),
                frame@.len() == i * w + j,
                forall|a: int, b: int|
                    0 <= a < i && 0 <= b < w ==> #[trigger] frame@[a * w + b] == frame_char(
                        grid_of(gs.board),
                        gs.view_x as int,
                        gs.view_y as int,
                        a,
                        b,
                    ),
                forall|b: int|
                    0 <= b < j ==> #[trigger] frame@[i * w + b] == frame_char(
                        grid_of(gs.board),
                        gs.view_x as int,
                        gs.view_y as int,
                        i as int,
                        b,
                    ),
            decreases w - j,
        {
            proof {
                vstd::arithmetic::mul::lemma_mul_inequality(i as int + 1, h as int, w as int);
                assert((i + 1) * w == i * w + w) by (nonlinear_arith);
            }
            let glyph = if gs.board[gs.view_y + i][gs.view_x + j] {
                DISP_CHAR
            } else {
                ' '
            };
            frame.push(glyph);
            proof {
                assert forall|a: int, b: int| 0 <= a < i && 0 <= b < w implies #[trigger] frame@[a
                    * w + b] == frame_char(
                    grid_of(gs.board),
                    gs.view_x as int,
                    gs.view_y as int,
                    a,
                    b,
                ) by {
                    vstd::arithmetic::mul::lemma_mul_inequality(a + 1, i as int, w as int);
                    assert((a + 1) * w == a * w + w) by (nonlinear_arith);
                }
            }
            j = j + 1;
        }
        proof {
            assert((i + 1) * w == i * w + w) by (nonlinear_arith);
        }
        i = i + 1;
    }
    Ok(frame)
}

} // verus!
