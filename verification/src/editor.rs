//! The navigation controller: the single source of truth for where the
//! cursor is and whether the program should stop. It consumes one decoded
//! input event at a time and advances that state; directional motion wraps
//! at the viewport edges and every step saturates, since the viewport can
//! shrink between frames.

use vstd::prelude::*;

use crate::banner;
use crate::render::{draw_rows, render_model};
use crate::terminal::{cmd_model, cmd_models, CommandModel, Position, TermCommand, ViewportSize};

verus! {

/// The cursor location inside the viewport: zero-based column `x` and row
/// `y`, clamped to the viewport after every update.
#[derive(Clone, Copy, Default, PartialEq, Eq, Structural, Debug)]
pub struct Location {
    pub x: usize,
    pub y: usize,
}

/// A decoded key code. Only the quit character and the eight motion keys
/// mean anything to the controller; everything else is carried as itself
/// and ignored.
#[derive(Clone, Copy, PartialEq, Eq, Structural, Debug)]
pub enum KeyCode {
    Up,
    Down,
    Left,
    Right,
    PageUp,
    PageDown,
    Home,
    End,
    Char(char),
    Other,
}

/// The modifier keys held together with a key press.
#[derive(Clone, Copy, Default, PartialEq, Eq, Structural, Debug)]
pub struct Modifiers {
    pub control: bool,
    pub shift: bool,
    pub alt: bool,
}

/// One input event as the terminal driver delivers it: a key event with
/// its code, modifiers and press/release kind, or some other event
/// (resize, focus, paste) that the controller ignores.
#[derive(Clone, Copy, PartialEq, Eq, Structural, Debug)]
pub enum InputEvent {
    Key { code: KeyCode, modifiers: Modifiers, press: bool },
    Other,
}

/// A direction of cursor motion.
#[derive(Clone, Copy, PartialEq, Eq, Structural, Debug)]
pub enum Direction {
    Up,
    Down,
    Left,
    Right,
    PageUp,
    PageDown,
    Home,
    End,
}

/// What the controller decides to do with one event: stop, move the
/// cursor, or nothing.
#[derive(Clone, Copy, PartialEq, Eq, Structural, Debug)]
pub enum ControllerAction {
    Quit,
    Move(Direction),
    Ignored,
}

/// Decrement that saturates at zero.
pub open spec fn sat_dec(v: usize) -> usize {
    if v > 0 {
        (v - 1) as usize
    } else {
        0
    }
}

/// Increment that saturates at the largest `usize`.
pub open spec fn sat_inc(v: usize) -> usize {
    if v < usize::MAX {
        (v + 1) as usize
    } else {
        v
    }
}

/// The smaller of two values.
pub open spec fn min_usize(a: usize, b: usize) -> usize {
    if a <= b {
        a
    } else {
        b
    }
}

/// Where one directional operation takes the cursor, against the current
/// viewport size. Left at the left edge wraps to the rightmost column of
/// the previous row, Right at the right edge wraps to column zero of the
/// next row, and the two extreme corners are fixed points.
pub open spec fn moved_location(loc: Location, dir: Direction, size: ViewportSize) -> Location {
    let hm1 = sat_dec(size.height);
    let wm1 = sat_dec(size.width);
    match dir {
        Direction::Up => Location { x: loc.x, y: sat_dec(loc.y) },
        Direction::Down => Location { x: loc.x, y: min_usize(hm1, sat_inc(loc.y)) },
        Direction::Left => if loc.x == 0 && loc.y == 0 {
            loc
        } else if loc.x == 0 {
            Location { x: wm1, y: sat_dec(loc.y) }
        } else {
            Location { x: (loc.x - 1) as usize, y: loc.y }
        },
        Direction::Right => if loc.x == wm1 && loc.y == hm1 {
            loc
        } else if loc.x == wm1 {
            Location { x: 0, y: min_usize(hm1, sat_inc(loc.y)) }
        } else {
            Location { x: sat_inc(loc.x), y: loc.y }
        },
        Direction::PageUp => Location { x: loc.x, y: 0 },
        Direction::PageDown => Location { x: loc.x, y: hm1 },
        Direction::Home => Location { x: 0, y: loc.y },
        Direction::End => Location { x: wm1, y: loc.y },
    }
}

/// How the controller classifies one event: the quit combination (the
/// character `q` with control and no other modifier, on a press) stops the
/// program, a motion key on a press moves the cursor, and everything else
/// is ignored.
pub open spec fn classify_event(e: InputEvent) -> ControllerAction {
    match e {
        InputEvent::Key { code, modifiers, press } => if !press {
            ControllerAction::Ignored
        } else if code == KeyCode::Char('q') && modifiers == (Modifiers {
            control: true,
            shift: false,
            alt: false,
        }) {
            ControllerAction::Quit
        } else {
            match code {
                KeyCode::Up => ControllerAction::Move(Direction::Up),
                KeyCode::Down => ControllerAction::Move(Direction::Down),
                KeyCode::Left => ControllerAction::Move(Direction::Left),
                KeyCode::Right => ControllerAction::Move(Direction::Right),
                KeyCode::PageUp => ControllerAction::Move(Direction::PageUp),
                KeyCode::PageDown => ControllerAction::Move(Direction::PageDown),
                KeyCode::Home => ControllerAction::Move(Direction::Home),
                KeyCode::End => ControllerAction::Move(Direction::End),
                _ => ControllerAction::Ignored,
            }
        },
        InputEvent::Other => ControllerAction::Ignored,
    }
}

/// The controller's whole state after one event: the quit combination sets
/// the exit flag, a motion key moves the cursor, anything else changes
/// nothing. The exit flag is never cleared.
pub open spec fn next_state(s: Editor, e: InputEvent, size: ViewportSize) -> Editor {
    match classify_event(e) {
        ControllerAction::Quit => Editor { exit_token: true, loc: s.loc },
        ControllerAction::Move(dir) => Editor {
            exit_token: s.exit_token,
            loc: moved_location(s.loc, dir, size),
        },
        ControllerAction::Ignored => s,
    }
}

/// The state after a whole sequence of events, processed in arrival order.
/// The loop stops as soon as the exit flag is set: events after it are
/// never read.
pub open spec fn run_events(s: Editor, es: Seq<InputEvent>, size: ViewportSize) -> Editor
    decreases es.len(),
{
    if es.len() == 0 || s.exit_token {
        s
    } else {
        run_events(next_state(s, es[0], size), es.subrange(1, es.len() as int), size)
    }
}

/// One full-frame redraw of the shell. While the program runs: hide the
/// cursor, return to the origin, draw every row, put the visible cursor
/// back on the tracked location, show it, and flush everything as one
/// atomic write. Once the exit flag is set: clear the viewport and emit a
/// single farewell line instead.
pub open spec fn frame_model(s: Editor, size: ViewportSize) -> Seq<CommandModel> {
    if s.exit_token {
        seq![
            CommandModel::HideCursor,
            CommandModel::MoveTo(Position { col: 0, row: 0 }),
            CommandModel::ClearAll,
            CommandModel::Print("Kachow."@),
            CommandModel::LineBreak,
            CommandModel::Flush,
        ]
    } else {
        seq![
            CommandModel::HideCursor,
            CommandModel::MoveTo(Position { col: 0, row: 0 }),
        ] + render_model(Seq::empty(), size) + seq![
            CommandModel::MoveTo(Position { col: s.loc.x, row: s.loc.y }),
            CommandModel::ShowCursor,
            CommandModel::Flush,
        ]
    }
}

/// The navigation controller: owns the exit flag and the cursor location,
/// and advances them in response to input events.
#[derive(Default, PartialEq, Eq, Structural, Debug)]
pub struct Editor {
    pub exit_token: bool,
    pub loc: Location,
}

impl Editor {
    /// A fresh controller: cursor at the origin, exit flag clear.
    pub fn new() -> (e: Editor)
        ensures
            !e.exit_token,
            e.loc == (Location { x: 0, y: 0 }),
    {
        Editor { exit_token: false, loc: Location { x: 0, y: 0 } }
    }

    /// Classifies one input event without changing any state.
    pub fn classify(event: &InputEvent) -> (a: ControllerAction)
        ensures
            a == classify_event(*event),
    {
        match *event {
            InputEvent::Key { code, modifiers, press } => {
                if !press {
                    ControllerAction::Ignored
                } else if code == KeyCode::Char('q') && modifiers.control && !modifiers.shift
                    && !modifiers.alt {
                    ControllerAction::Quit
                } else {
                    match code {
                        KeyCode::Up => ControllerAction::Move(Direction::Up),
                        KeyCode::Down => ControllerAction::Move(Direction::Down),
                        KeyCode::Left => ControllerAction::Move(Direction::Left),
                        KeyCode::Right => ControllerAction::Move(Direction::Right),
                        KeyCode::PageUp => ControllerAction::Move(Direction::PageUp),
                        KeyCode::PageDown => ControllerAction::Move(Direction::PageDown),
                        KeyCode::Home => ControllerAction::Move(Direction::Home),
                        KeyCode::End => ControllerAction::Move(Direction::End),
                        _ => ControllerAction::Ignored,
                    }
                }
            },
            InputEvent::Other => ControllerAction::Ignored,
        }
    }

    /// Moves the cursor one directional step against the current viewport
    /// size. Every arithmetic step saturates, so the call is total even
    /// when the viewport has shrunk under the cursor.
    pub fn move_point(&mut self, dir: Direction, size: ViewportSize)
        ensures
            final(self).loc == moved_location(old(self).loc, dir, size),
            final(self).exit_token == old(self).exit_token,
    {
        let Location { mut x, mut y } = self.loc;
        let hm1 = if size.height > 0 { size.height - 1 } else { 0 };
        let wm1 = if size.width > 0 { size.width - 1 } else { 0 };
        match dir {
            Direction::Up => {
                y = if y > 0 { y - 1 } else { 0 };
            },
            Direction::Down => {
                y = if y < hm1 { y + 1 } else { hm1 };
            },
            Direction::Left => {
                if x == 0 && y == 0 {
                    // top-left corner: nothing moves
                } else if x == 0 {
                    x = wm1;
                    y = y - 1;
                } else {
                    x = x - 1;
                }
            },
            Direction::Right => {
                if x == wm1 && y == hm1 {
                    // bottom-right corner: nothing moves
                } else if x == wm1 {
                    x = 0;
                    y = if y < hm1 { y + 1 } else { hm1 };
                } else {
                    x = if x < usize::MAX { x + 1 } else { x };
                }
            },
            Direction::PageUp => {
                y = 0;
            },
            Direction::PageDown => {
                y = hm1;
            },
            Direction::Home => {
                x = 0;
            },
            Direction::End => {
                x = wm1;
            },
        }
        self.loc = Location { x, y };
    }

    /// Handles one input event against the current viewport size: the quit
    /// combination sets the exit flag, a motion key moves the cursor,
    /// anything else is ignored.
    pub fn evaluate_event(&mut self, event: &InputEvent, size: ViewportSize)
        ensures
            *final(self) == next_state(*old(self), *event, size),
    {
        match Self::classify(event) {
            ControllerAction::Quit => {
                self.exit_token = true;
            },
            ControllerAction::Move(dir) => {
                self.move_point(dir, size);
            },
            ControllerAction::Ignored => {},
        }
    }

    /// Produces one full-frame redraw of the current state: the farewell
    /// frame once the exit flag is set, the tilde/banner viewport with the
    /// cursor repositioned otherwise.
    pub fn refresh_shell(&self, size: ViewportSize) -> (cmds: Vec<TermCommand>)
        ensures
            cmd_models(cmds@) == frame_model(*self, size),
    {
        let mut cmds: Vec<TermCommand> = Vec::new();
        cmds.push(TermCommand::HideCursor);
        cmds.push(TermCommand::MoveTo(Position { col: 0, row: 0 }));
        if self.exit_token {
            cmds.push(TermCommand::ClearAll);
            cmds.push(TermCommand::Print(String::from_str("Kachow.")));
            cmds.push(TermCommand::LineBreak);
            cmds.push(TermCommand::Flush);
            proof {
                assert(cmd_models(cmds@) =~= frame_model(*self, size));
            }
            cmds
        } else {
            let mut rows = Self::draw_tildes(size);
            cmds.append(&mut rows);
            cmds.push(TermCommand::MoveTo(Position { col: self.loc.x, row: self.loc.y }));
            cmds.push(TermCommand::ShowCursor);
            cmds.push(TermCommand::Flush);
            proof {
                assert(cmd_models(cmds@) =~= frame_model(*self, size));
            }
            cmds
        }
    }

    /// Draws every placeholder row of an empty viewport: tildes, with the
    /// welcome banner on the one-third row.
    pub fn draw_tildes(size: ViewportSize) -> (cmds: Vec<TermCommand>)
        ensures
            cmd_models(cmds@) == render_model(Seq::empty(), size),
    {
        let empty: Vec<String> = Vec::new();
        proof {
            assert(empty.deep_view() =~= Seq::<Seq<char>>::empty());
        }
        draw_rows(&empty, size)
    }

    /// Builds the welcome banner row for the given viewport width.
    pub fn output_welcome(width: usize) -> (r: String)
        ensures
            r@ == banner::banner_row(width as nat),
    {
        banner::output_welcome(width)
    }

    /// The placeholder for a row with no content: a single tilde.
    pub fn draw_empty_row() -> (c: TermCommand)
        ensures
            cmd_model(c) == CommandModel::Print(seq!['~']),
    {
        let tilde = String::from_str("~");
        proof {
            reveal_strlit("~");
            assert(tilde@ =~= seq!['~']);
        }
        TermCommand::Print(tilde)
    }

    /// Processes a sequence of events in arrival order, stopping as soon
    /// as the exit flag is set, exactly as the interactive loop does.
    pub fn run(&mut self, events: &Vec<InputEvent>, size: ViewportSize)
        ensures
            *final(self) == run_events(*old(self), events@, size),
    {
        let n = events.len();
        let mut i: usize = 0;
        proof {
            assert(events@.subrange(0, n as int) =~= events@);
        }
        while i < n && !self.exit_token
            invariant
                i <= n,
                n == events@.len(),
                run_events(*old(self), events@, size) == run_events(
                    *self,
                    events@.subrange(i as int, n as int),
                    size,
                ),
            decreases n - i,
        {
            let ghost pre = *self;
            let ghost rest = events@.subrange(i as int, n as int);
            self.evaluate_event(&events[i], size);
            proof {
                assert(rest[0] == events@[i as int]);
                assert(rest.subrange(1, rest.len() as int) =~= events@.subrange(
                    i + 1,
                    n as int,
                ));
            }
            i = i + 1;
        }
        proof {
            if i == n {
                assert(events@.subrange(n as int, n as int).len() == 0);
            }
        }
    }
}

/// Clamping: a directional operation never lets the cursor escape the
/// viewport. If the cursor is in bounds before the step, it is in bounds
/// after it, whichever direction was taken.
pub proof fn lemma_move_in_bounds(loc: Location, dir: Direction, size: ViewportSize)
    requires
        loc.x < size.width,
        loc.y < size.height,
    ensures
        moved_location(loc, dir, size).x < size.width,
        moved_location(loc, dir, size).y < size.height,
{
}

/// Corner stability: Left at the top-left corner is a no-op, and Right at
/// the bottom-right corner is a no-op, for every viewport size.
pub proof fn lemma_corner_stability(size: ViewportSize)
    ensures
        moved_location((Location { x: 0, y: 0 }), Direction::Left, size) == (Location {
            x: 0,
            y: 0,
        }),
        moved_location(
            (Location { x: sat_dec(size.width), y: sat_dec(size.height) }),
            Direction::Right,
            size,
        ) == (Location { x: sat_dec(size.width), y: sat_dec(size.height) }),
{
}

/// Idempotence of the four absolute jumps: applying Home, End, Page-Up or
/// Page-Down twice in a row yields the same state as applying it once.
pub proof fn lemma_jump_idempotent(loc: Location, dir: Direction, size: ViewportSize)
    requires
        dir == Direction::PageUp || dir == Direction::PageDown || dir == Direction::Home || dir
            == Direction::End,
    ensures
        moved_location(moved_location(loc, dir, size), dir, size) == moved_location(
            loc,
            dir,
            size,
        ),
{
}

/// Quit monotonicity, one step: handling an event never clears the exit
/// flag; it sets it exactly when the event is the quit combination.
pub proof fn lemma_quit_monotonic(s: Editor, e: InputEvent, size: ViewportSize)
    ensures
        next_state(s, e, size).exit_token == (s.exit_token || classify_event(e)
            is Quit),
{
}

/// Quit monotonicity, whole run: once the exit flag is set the loop has
/// terminated, so any further events — directional ones included — change
/// nothing at all.
pub proof fn lemma_exit_is_final(s: Editor, es: Seq<InputEvent>, size: ViewportSize)
    requires
        s.exit_token,
    ensures
        run_events(s, es, size) == s,
{
}

} // verus!
