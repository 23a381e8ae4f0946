use rusteze::editor::{ControllerAction, Direction, Editor, InputEvent, KeyCode, Location, Modifiers};
use rusteze::terminal::{TermCommand, ViewportSize};

fn size(width: usize, height: usize) -> ViewportSize {
    ViewportSize { height, width }
}

fn key(code: KeyCode) -> InputEvent {
    InputEvent::Key { code, modifiers: Modifiers::default(), press: true }
}

fn ctrl_q() -> InputEvent {
    InputEvent::Key {
        code: KeyCode::Char('q'),
        modifiers: Modifiers { control: true, shift: false, alt: false },
        press: true,
    }
}

fn at(x: usize, y: usize) -> Editor {
    Editor { exit_token: false, loc: Location { x, y } }
}

#[test]
fn wrap_left_to_previous_row() {
    let mut e = at(0, 5);
    e.move_point(Direction::Left, size(80, 24));
    assert_eq!(e.loc, Location { x: 79, y: 4 });
}

#[test]
fn wrap_right_to_next_row() {
    let mut e = at(79, 5);
    e.move_point(Direction::Right, size(80, 24));
    assert_eq!(e.loc, Location { x: 0, y: 6 });
}

#[test]
fn left_at_top_left_corner_is_noop() {
    let mut e = at(0, 0);
    e.move_point(Direction::Left, size(80, 24));
    assert_eq!(e.loc, Location { x: 0, y: 0 });
}

#[test]
fn right_at_bottom_right_corner_is_noop() {
    let mut e = at(79, 23);
    e.move_point(Direction::Right, size(80, 24));
    assert_eq!(e.loc, Location { x: 79, y: 23 });
}

#[test]
fn directional_moves_stay_in_bounds() {
    let dirs = [
        Direction::Up,
        Direction::Down,
        Direction::Left,
        Direction::Right,
        Direction::PageUp,
        Direction::PageDown,
        Direction::Home,
        Direction::End,
    ];
    for x in 0..3 {
        for y in 0..3 {
            for dir in dirs {
                let mut e = at(x, y);
                e.move_point(dir, size(3, 3));
                assert!(e.loc.x < 3, "x escaped: {:?} from ({x},{y})", dir);
                assert!(e.loc.y < 3, "y escaped: {:?} from ({x},{y})", dir);
            }
        }
    }
}

#[test]
fn jumps_are_idempotent() {
    let dirs = [Direction::PageUp, Direction::PageDown, Direction::Home, Direction::End];
    for dir in dirs {
        let mut once = at(7, 11);
        once.move_point(dir, size(80, 24));
        let mut twice = at(7, 11);
        twice.move_point(dir, size(80, 24));
        twice.move_point(dir, size(80, 24));
        assert_eq!(once.loc, twice.loc, "{:?} not idempotent", dir);
    }
}

#[test]
fn saturates_when_viewport_shrinks() {
    // The cursor sits far outside a freshly shrunken viewport; every step
    // still saturates instead of under- or overflowing.
    let mut e = at(50, 20);
    e.move_point(Direction::Down, size(10, 5));
    assert_eq!(e.loc, Location { x: 50, y: 4 });
    let mut e = at(0, 0);
    e.move_point(Direction::Up, size(10, 5));
    assert_eq!(e.loc, Location { x: 0, y: 0 });
    let mut e = at(0, 3);
    e.move_point(Direction::Left, size(10, 5));
    assert_eq!(e.loc, Location { x: 9, y: 2 });
    let mut e = at(4, 2);
    e.move_point(Direction::End, size(0, 0));
    assert_eq!(e.loc, Location { x: 0, y: 2 });
    let mut e = at(4, 2);
    e.move_point(Direction::PageDown, size(0, 0));
    assert_eq!(e.loc, Location { x: 4, y: 0 });
}

#[test]
fn classify_recognizes_quit_and_motion() {
    assert_eq!(Editor::classify(&ctrl_q()), ControllerAction::Quit);
    assert_eq!(Editor::classify(&key(KeyCode::Up)), ControllerAction::Move(Direction::Up));
    assert_eq!(Editor::classify(&key(KeyCode::PageDown)), ControllerAction::Move(Direction::PageDown));
    assert_eq!(Editor::classify(&key(KeyCode::Char('q'))), ControllerAction::Ignored);
    assert_eq!(Editor::classify(&key(KeyCode::Char('x'))), ControllerAction::Ignored);
    assert_eq!(Editor::classify(&InputEvent::Other), ControllerAction::Ignored);
    // a release of the quit combination is ignored
    let release = InputEvent::Key {
        code: KeyCode::Char('q'),
        modifiers: Modifiers { control: true, shift: false, alt: false },
        press: false,
    };
    assert_eq!(Editor::classify(&release), ControllerAction::Ignored);
    // control together with another modifier is not the quit combination
    let shifted = InputEvent::Key {
        code: KeyCode::Char('q'),
        modifiers: Modifiers { control: true, shift: true, alt: false },
        press: true,
    };
    assert_eq!(Editor::classify(&shifted), ControllerAction::Ignored);
}

#[test]
fn quit_is_monotonic() {
    let mut e = Editor::new();
    e.evaluate_event(&ctrl_q(), size(80, 24));
    assert!(e.exit_token);
    // no later event clears the flag, and the loop reads none of them
    let loc_after_quit = e.loc;
    e.run(&vec![key(KeyCode::Down), key(KeyCode::Right), InputEvent::Other], size(80, 24));
    assert!(e.exit_token);
    assert_eq!(e.loc, loc_after_quit);
}

#[test]
fn scenario_two_down_one_right_then_quit() {
    let mut e = Editor::new();
    let events = vec![
        key(KeyCode::Down),
        key(KeyCode::Down),
        key(KeyCode::Right),
        ctrl_q(),
    ];
    e.run(&events, size(80, 24));
    assert_eq!(e.loc, Location { x: 1, y: 2 });
    assert!(e.exit_token);
    let frame = e.refresh_shell(size(80, 24));
    assert_eq!(
        frame,
        vec![
            TermCommand::HideCursor,
            TermCommand::MoveTo(rusteze::terminal::Position { col: 0, row: 0 }),
            TermCommand::ClearAll,
            TermCommand::Print(String::from("Kachow.")),
            TermCommand::LineBreak,
            TermCommand::Flush,
        ]
    );
}

#[test]
fn ignored_events_change_nothing() {
    let mut e = at(3, 4);
    e.evaluate_event(&InputEvent::Other, size(80, 24));
    assert_eq!(e.loc, Location { x: 3, y: 4 });
    assert!(!e.exit_token);
    e.evaluate_event(&key(KeyCode::Other), size(80, 24));
    assert_eq!(e.loc, Location { x: 3, y: 4 });
    assert!(!e.exit_token);
}
