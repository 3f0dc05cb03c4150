use term_life::input::classify_event;
use term_life::input::KeySym;
use term_life::input::PolledEvent;
use term_life::render::render_viewport;
use term_life::render::RenderError;
use term_life::state::GameState;
use term_life::state::InputCommand;

fn make_grid(n: usize, live: &[(usize, usize)]) -> Vec<Vec<bool>> {
    let mut g = vec![vec![false; n]; n];
    for &(i, j) in live {
        g[i][j] = true;
    }
    g
}

fn make_state(n: usize) -> GameState {
    GameState {
        board: make_grid(n, &[]),
        playing: true,
        needs_update: false,
        view_x: 0,
        view_y: 0,
        view_width: 2,
        view_height: 2,
        running: true,
        update_delay_micros: 1000,
        changes_drawn: true,
        current_command: InputCommand::Pass,
        resize_pending: false,
    }
}

#[test]
fn escape_and_q_quit() {
    assert_eq!(
        classify_event(&PolledEvent::KeyPress(KeySym::Esc)),
        InputCommand::Quit
    );
    assert_eq!(
        classify_event(&PolledEvent::KeyPress(KeySym::Char('q'))),
        InputCommand::Quit
    );
}

#[test]
fn space_pauses() {
    assert_eq!(
        classify_event(&PolledEvent::KeyPress(KeySym::Char(' '))),
        InputCommand::Pause
    );
}

#[test]
fn arrows_and_wasd_pan() {
    assert_eq!(
        classify_event(&PolledEvent::KeyPress(KeySym::Up)),
        InputCommand::Up
    );
    assert_eq!(
        classify_event(&PolledEvent::KeyPress(KeySym::Down)),
        InputCommand::Down
    );
    assert_eq!(
        classify_event(&PolledEvent::KeyPress(KeySym::Left)),
        InputCommand::Left
    );
    assert_eq!(
        classify_event(&PolledEvent::KeyPress(KeySym::Right)),
        InputCommand::Right
    );
    assert_eq!(
        classify_event(&PolledEvent::KeyPress(KeySym::Char('w'))),
        InputCommand::Up
    );
    assert_eq!(
        classify_event(&PolledEvent::KeyPress(KeySym::Char('a'))),
        InputCommand::Left
    );
    assert_eq!(
        classify_event(&PolledEvent::KeyPress(KeySym::Char('s'))),
        InputCommand::Down
    );
    assert_eq!(
        classify_event(&PolledEvent::KeyPress(KeySym::Char('d'))),
        InputCommand::Right
    );
}

#[test]
fn resize_notification_maps_to_resize() {
    assert_eq!(classify_event(&PolledEvent::Resize), InputCommand::Resize);
}

#[test]
fn everything_else_is_the_no_op() {
    assert_eq!(
        classify_event(&PolledEvent::KeyPress(KeySym::Char('x'))),
        InputCommand::Pass
    );
    assert_eq!(
        classify_event(&PolledEvent::KeyPress(KeySym::Other)),
        InputCommand::Pass
    );
    assert_eq!(classify_event(&PolledEvent::KeyOther), InputCommand::Pass);
    assert_eq!(classify_event(&PolledEvent::NoEvent), InputCommand::Pass);
    assert_eq!(classify_event(&PolledEvent::Other), InputCommand::Pass);
}

#[test]
fn frame_shows_the_viewport_rectangle() {
    let mut gs = make_state(4);
    gs.board = make_grid(4, &[(1, 1), (2, 2)]);
    gs.view_x = 1;
    gs.view_y = 1;
    gs.view_width = 2;
    gs.view_height = 2;
    let frame = render_viewport(&gs).unwrap();
    assert_eq!(frame, vec!['0', ' ', ' ', '0']);
}

#[test]
fn frame_is_row_major_over_the_full_extent() {
    let mut gs = make_state(4);
    gs.board = make_grid(4, &[(0, 0), (0, 2), (1, 1)]);
    gs.view_width = 3;
    gs.view_height = 2;
    let frame = render_viewport(&gs).unwrap();
    assert_eq!(frame, vec!['0', ' ', '0', ' ', '0', ' ']);
}

#[test]
fn oversized_surface_is_an_error() {
    let mut gs = make_state(4);
    gs.view_width = 5;
    gs.view_height = 2;
    assert_eq!(render_viewport(&gs), Err(RenderError::SurfaceTooLarge));
    gs.view_width = 2;
    gs.view_height = 7;
    assert_eq!(render_viewport(&gs), Err(RenderError::SurfaceTooLarge));
}
