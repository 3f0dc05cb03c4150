//! Game state: the board, the viewport, the run/pause flags, the
//! command-dispatch state machine and the simulation clock's decision rule.

use vstd::prelude::*;

use crate::board::grid_of;
use crate::board::grid_wf;
use crate::board::lemma_step_grid_wf;
use crate::board::step_board;
use crate::board::step_grid;
use crate::rng::fresh_rng;
use crate::rng::random_with_ratio;

verus! {

/// Side length of the simulated grid.
pub const GAME_SIZE: usize = 600;

/// Live-cell density of the random initial seeding: 7 in 100.
pub const DENSITY_NUMER: u32 = 7;

/// Denominator of the seeding density ratio.
pub const DENSITY_DENOM: u32 = 100;

/// Delay between permitted simulation updates, in microseconds.
pub const GAME_SPEED_MICROS: u128 = 120000;

/// One symbolic command, decoded from one raw input event.
#[derive(PartialEq, Eq, Structural, Clone, Copy, Debug)]
pub enum InputCommand {
    Up,
    Down,
    Left,
    Right,
    Pause,
    Place,
    Pass,
    Quit,
    Resize,
}

/// The whole game: the grid, the viewport into it, the run/pause flags, the
/// simulation clock's period and the one pending command.
pub struct GameState {
    pub board: Vec<Vec<bool>>,
    pub playing: bool,
    pub needs_update: bool,
    pub view_x: usize,
    pub view_y: usize,
    pub view_width: usize,
    pub view_height: usize,
    pub running: bool,
    pub update_delay_micros: u128,
    pub changes_drawn: bool,
    pub current_command: InputCommand,
    pub resize_pending: bool,
}

impl GameState {
    /// The grid's side length.
    pub open spec fn size(self) -> int {
        self.board@.len() as int
    }

    /// Well-formed: the board is square, the viewport offsets never leave the
    /// grid, and whenever an extent fits the grid at all, the viewport lies
    /// fully inside it along that axis.
    pub open spec fn wf(self) -> bool {
        &&& grid_wf(grid_of(self.board))
        &&& self.view_x <= self.size()
        &&& self.view_y <= self.size()
        &&& (self.view_width <= self.size() ==> self.view_x + self.view_width <= self.size())
        &&& (self.view_height <= self.size() ==> self.view_y + self.view_height <= self.size())
    }
}

/// The state after one pan attempt: moved one unit and marked dirty if the
/// move keeps the viewport inside the grid, untouched otherwise.
pub open spec fn move_applied(gs: GameState) -> GameState {
    match gs.current_command {
        InputCommand::Up => if gs.view_y > 0 {
            GameState { view_y: (gs.view_y - 1) as usize, changes_drawn: false, ..gs }
        } else {
            gs
        },
        InputCommand::Left => if gs.view_x > 0 {
            GameState { view_x: (gs.view_x - 1) as usize, changes_drawn: false, ..gs }
        } else {
            gs
        },
        InputCommand::Down => if gs.view_height <= gs.size() && gs.view_y + gs.view_height
            < gs.size() {
            GameState { view_y: (gs.view_y + 1) as usize, changes_drawn: false, ..gs }
        } else {
            gs
        },
        InputCommand::Right => if gs.view_width <= gs.size() && gs.view_x + gs.view_width
            < gs.size() {
            GameState { view_x: (gs.view_x + 1) as usize, changes_drawn: false, ..gs }
        } else {
            gs
        },
        _ => gs,
    }
}

/// Attempt to pan the viewport one unit in the direction of the current
/// command. A move that would push the viewport outside the grid is a silent
/// no-op and does not mark the display dirty.
pub fn move_command(gs: &mut GameState)
    requires
        old(gs).wf(),
    ensures
        final(gs).wf(),
        *final(gs) == move_applied(*old(gs)),
{
    let n = gs.board.len();
    match gs.current_command {
        InputCommand::Up => {
            if gs.view_y > 0 {
                gs.view_y = gs.view_y - 1;
                gs.changes_drawn = false;
            }
        },
        InputCommand::Left => {
            if gs.view_x > 0 {
                gs.view_x = gs.view_x - 1;
                gs.changes_drawn = false;
            }
        },
        InputCommand::Down => {
            if gs.view_height <= n && gs.view_y < n - gs.view_height {
                gs.view_y = gs.view_y + 1;
                gs.changes_drawn = false;
            }
        },
        InputCommand::Right => {
            if gs.view_width <= n && gs.view_x < n - gs.view_width {
                gs.view_x = gs.view_x + 1;
                gs.changes_drawn = false;
            }
        },
        _ => {},
    }
}

/// The state after one dispatch of the current command; afterwards the
/// current command is always the no-op `Pass`.
pub open spec fn dispatch_applied(gs: GameState) -> GameState {
    match gs.current_command {
        InputCommand::Quit => GameState {
            running: false,
            current_command: InputCommand::Pass,
            ..gs
        },
        InputCommand::Pause => GameState {
            playing: !gs.playing,
            current_command: InputCommand::Pass,
            ..gs
        },
        InputCommand::Up | InputCommand::Left | InputCommand::Down | InputCommand::Right
            => GameState { current_command: InputCommand::Pass, ..move_applied(gs) },
        InputCommand::Resize => GameState {
            resize_pending: true,
            changes_drawn: false,
            current_command: InputCommand::Pass,
            ..gs
        },
        InputCommand::Place | InputCommand::Pass => GameState {
            current_command: InputCommand::Pass,
            ..gs
        },
    }
}

/// Dispatch the current command against the game state: `Quit` ends the run,
/// `Pause` toggles the simulation, the four directions pan the viewport,
/// `Resize` asks the frame loop to re-query the surface size, and `Place`
/// and `Pass` do nothing. The command is consumed: afterwards it is `Pass`.
pub fn execute_input(gs: &mut GameState)
    requires
        old(gs).wf(),
    ensures
        final(gs).wf(),
        *final(gs) == dispatch_applied(*old(gs)),
{
    match gs.current_command {
        InputCommand::Quit => {
            gs.running = false;
        },
        InputCommand::Pause => {
            gs.playing = !gs.playing;
        },
        InputCommand::Up | InputCommand::Left | InputCommand::Down | InputCommand::Right => {
            move_command(gs);
        },
        InputCommand::Resize => {
            gs.resize_pending = true;
            gs.changes_drawn = false;
        },
        _ => {},
    }
    gs.current_command = InputCommand::Pass;
}

/// Replace the board with its next generation, evaluated against a snapshot
/// of the current one, and mark the display dirty.
pub fn update_gameboard(gs: &mut GameState)
    requires
        old(gs).wf(),
    ensures
        final(gs).wf(),
        grid_of(final(gs).board) == step_grid(grid_of(old(gs).board)),
        final(gs).changes_drawn == false,
        final(gs).needs_update == false,
        final(gs).playing == old(gs).playing,
        final(gs).running == old(gs).running,
        final(gs).view_x == old(gs).view_x,
        final(gs).view_y == old(gs).view_y,
        final(gs).view_width == old(gs).view_width,
        final(gs).view_height == old(gs).view_height,
        final(gs).update_delay_micros == old(gs).update_delay_micros,
        final(gs).current_command == old(gs).current_command,
        final(gs).resize_pending == old(gs).resize_pending,
{
    let next = step_board(&gs.board);
    proof {
        lemma_step_grid_wf(grid_of(old(gs).board));
    }
    gs.board = next;
    gs.changes_drawn = false;
    gs.needs_update = false;
}

/// Whether the simulation clock fires: the simulation is playing and the
/// elapsed time since the last advance exceeds the tick interval.
pub open spec fn tick_fires(playing: bool, elapsed_micros: u128, delay_micros: u128) -> bool {
    playing && elapsed_micros > delay_micros
}

/// The grid after one pass of the clock check: advanced one generation if
/// the clock fires, untouched otherwise.
pub open spec fn ticked_grid(
    g: Seq<Seq<bool>>,
    playing: bool,
    elapsed_micros: u128,
    delay_micros: u128,
) -> Seq<Seq<bool>> {
    if tick_fires(playing, elapsed_micros, delay_micros) {
        step_grid(g)
    } else {
        g
    }
}

/// One pass of the simulation clock: advance the board exactly when the
/// simulation is playing and the elapsed time exceeds the tick interval.
/// Returns whether it advanced, so the caller can reset its clock.
pub fn frame_tick(gs: &mut GameState, elapsed_micros: u128) -> (ticked: bool)
    requires
        old(gs).wf(),
    ensures
        final(gs).wf(),
        ticked == tick_fires(old(gs).playing, elapsed_micros, old(gs).update_delay_micros),
        grid_of(final(gs).board) == ticked_grid(
            grid_of(old(gs).board),
            old(gs).playing,
            elapsed_micros,
            old(gs).update_delay_micros,
        ),
        !ticked ==> *final(gs) == *old(gs),
        ticked ==> final(gs).changes_drawn == false && final(gs).needs_update == false,
        final(gs).playing == old(gs).playing,
        final(gs).running == old(gs).running,
        final(gs).view_x == old(gs).view_x,
        final(gs).view_y == old(gs).view_y,
        final(gs).view_width == old(gs).view_width,
        final(gs).view_height == old(gs).view_height,
        final(gs).update_delay_micros == old(gs).update_delay_micros,
        final(gs).current_command == old(gs).current_command,
        final(gs).resize_pending == old(gs).resize_pending,
{
    if elapsed_micros > gs.update_delay_micros && gs.playing {
        update_gameboard(gs);
        true
    } else {
        false
    }
}

/// An offset pulled back just far enough that a viewport of the given extent
/// stays inside a grid of side `n`; left alone when the extent does not fit
/// the grid at all.
pub open spec fn clamped_offset(off: int, extent: int, n: int) -> int {
    if extent <= n && off + extent > n {
        n - extent
    } else {
        off
    }
}

/// Replace the viewport's extent with the rendering surface's current size
/// and mark the display dirty. The offsets are pulled back only as far as
/// needed to keep a fitting viewport inside the grid; an extent larger than
/// the grid is left for the renderer's boundary check to surface.
pub fn apply_resize(gs: &mut GameState, width: usize, height: usize)
    requires
        old(gs).wf(),
    ensures
        final(gs).wf(),
        final(gs).view_width == width,
        final(gs).view_height == height,
        final(gs).view_x as int == clamped_offset(
            old(gs).view_x as int,
            width as int,
            old(gs).size(),
        ),
        final(gs).view_y as int == clamped_offset(
            old(gs).view_y as int,
            height as int,
            old(gs).size(),
        ),
        final(gs).changes_drawn == false,
        final(gs).resize_pending == false,
        final(gs).board == old(gs).board,
        final(gs).playing == old(gs).playing,
        final(gs).running == old(gs).running,
        final(gs).needs_update == old(gs).needs_update,
        final(gs).update_delay_micros == old(gs).update_delay_micros,
        final(gs).current_command == old(gs).current_command,
{
    let n = gs.board.len();
    gs.view_width = width;
    gs.view_height = height;
    if width <= n && gs.view_x > n - width {
        gs.view_x = n - width;
    }
    if height <= n && gs.view_y > n - height {
        gs.view_y = n - height;
    }
    gs.changes_drawn = false;
    gs.resize_pending = false;
}

/// Build the starting state: a randomly seeded square grid with the fixed
/// live-cell density, the viewport centered (pulled back to fit where the
/// surface extent demands it), the simulation playing and nothing drawn yet.
pub fn initialize_gamestate(view_height: usize, view_width: usize) -> (gs: GameState)
    ensures
        gs.wf(),
        gs.size() == GAME_SIZE,
        gs.playing,
        gs.running,
        !gs.needs_update,
        !gs.changes_drawn,
        !gs.resize_pending,
        gs.current_command == InputCommand::Pass,
        gs.update_delay_micros == GAME_SPEED_MICROS,
        gs.view_width == view_width,
        gs.view_height == view_height,
        gs.view_x as int == clamped_offset(
            (GAME_SIZE / 2) as int,
            view_width as int,
            GAME_SIZE as int,
        ),
        gs.view_y as int == clamped_offset(
            (GAME_SIZE / 2) as int,
            view_height as int,
            GAME_SIZE as int,
        ),
{
    let mut rng = fresh_rng();
    let mut brd: Vec<Vec<bool>> = Vec::new();
    let mut i: usize = 0;
    while i < GAME_SIZE
        invariant
            i <= GAME_SIZE,
            brd@.len() == i,
            forall|a: int| 0 <= a < i ==> #[trigger] brd@[a]@.len() == GAME_SIZE,
        decreases GAME_SIZE - i,
    {
        let mut row: Vec<bool> = Vec::new();
        let mut j: usize = 0;
        while j < GAME_SIZE
            invariant
                j <= GAME_SIZE,
                row@.len() == j,
            decreases GAME_SIZE - j,
        {
            let cell = random_with_ratio(&mut rng, DENSITY_NUMER, DENSITY_DENOM);
            row.push(cell);
            j = j + 1;
        }
        brd.push(row);
        i = i + 1;
    }
    let halfsize = GAME_SIZE / 2;
    let vx = if view_width <= GAME_SIZE && halfsize > GAME_SIZE - view_width {
        GAME_SIZE - view_width
    } else {
        halfsize
    };
    let vy = if view_height <= GAME_SIZE && halfsize > GAME_SIZE - view_height {
        GAME_SIZE - view_height
    } else {
        halfsize
    };
    proof {
        assert forall|a: int| 0 <= a < grid_of(brd).len() implies #[trigger] grid_of(brd)[a].len()
            == grid_of(brd).len() by {
            assert(brd@[a]@.len() == GAME_SIZE);
        }
    }
    GameState {
        board: brd,
        playing: true,
        needs_update: false,
        view_x: vx,
        view_y: vy,
        view_width,
        view_height,
        running: true,
        update_delay_micros: GAME_SPEED_MICROS,
        changes_drawn: false,
        current_command: InputCommand::Pass,
        resize_pending: false,
    }
}

/// Law: panning clamps to the grid. From a well-formed state the result is
/// well formed (the viewport never leaves the grid); panning up or left at
/// offset zero, and panning down or right with the far edge already on the
/// grid boundary, are exact no-ops.
pub proof fn lemma_pan_clamped(gs: GameState)
    requires
        gs.wf(),
    ensures
        move_applied(gs).wf(),
        gs.current_command == InputCommand::Up && gs.view_y == 0 ==> move_applied(gs) == gs,
        gs.current_command == InputCommand::Left && gs.view_x == 0 ==> move_applied(gs) == gs,
        gs.current_command == InputCommand::Down && gs.view_y + gs.view_height == gs.size()
            ==> move_applied(gs) == gs,
        gs.current_command == InputCommand::Right && gs.view_x + gs.view_width == gs.size()
            ==> move_applied(gs) == gs,
{
}

/// Law: commands are consumed exactly once. After dispatch the current
/// command is the no-op value, so dispatching again without a new poll
/// changes nothing.
pub proof fn lemma_command_consumed(gs: GameState)
    ensures
        dispatch_applied(gs).current_command == InputCommand::Pass,
        dispatch_applied(dispatch_applied(gs)) == dispatch_applied(gs),
{
}

/// Law: pause freezes the simulation. While paused, elapsed tick intervals
/// never change the grid, however many pass in a row; and after toggling
/// pause, one elapsed interval advances the grid exactly one generation.
pub proof fn lemma_pause_semantics(gs: GameState, e1: u128, e2: u128, e3: u128)
    requires
        !gs.playing,
        gs.current_command == InputCommand::Pause,
        e3 > gs.update_delay_micros,
    ensures
        ticked_grid(
            ticked_grid(grid_of(gs.board), gs.playing, e1, gs.update_delay_micros),
            gs.playing,
            e2,
            gs.update_delay_micros,
        ) == grid_of(gs.board),
        dispatch_applied(gs).playing,
        ticked_grid(
            grid_of(dispatch_applied(gs).board),
            dispatch_applied(gs).playing,
            e3,
            dispatch_applied(gs).update_delay_micros,
        ) == step_grid(grid_of(gs.board)),
{
}

/// Law: the simulation clock fires exactly once per elapsed interval. With
/// the simulation playing, the grid is unchanged while the elapsed time has
/// not exceeded the interval; once it has, the grid advances exactly one
/// generation, and further loop spins before the next interval elapses
/// leave it there.
pub proof fn lemma_tick_exactly_once(
    g: Seq<Seq<bool>>,
    delay: u128,
    e_before: u128,
    e_fire: u128,
    e_spin: u128,
)
    requires
        e_before <= delay,
        e_fire > delay,
        e_spin <= delay,
    ensures
        ticked_grid(g, true, e_before, delay) == g,
        ticked_grid(g, true, e_fire, delay) == step_grid(g),
        ticked_grid(ticked_grid(g, true, e_fire, delay), true, e_spin, delay) == step_grid(g),
{
}

} // verus!
