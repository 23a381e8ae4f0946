use rusteze::editor::Editor;
use rusteze::terminal::{Position, TermCommand, ViewportSize};
use rusteze::view::TextView;

fn size(width: usize, height: usize) -> ViewportSize {
    ViewportSize { height, width }
}

fn breaks(cmds: &[TermCommand]) -> usize {
    cmds.iter().filter(|c| matches!(c, TermCommand::LineBreak)).count()
}

fn prints(cmds: &[TermCommand]) -> usize {
    cmds.iter().filter(|c| matches!(c, TermCommand::Print(_))).count()
}

fn clears(cmds: &[TermCommand]) -> usize {
    cmds.iter().filter(|c| matches!(c, TermCommand::ClearLine)).count()
}

#[test]
fn full_render_emits_one_break_fewer_than_rows() {
    let view = TextView::default();
    let cmds = view.render(size(80, 24));
    assert_eq!(breaks(&cmds), 23);
    assert_eq!(prints(&cmds), 24);
    assert_eq!(clears(&cmds), 24);
}

#[test]
fn banner_fits_forty_columns() {
    let row = Editor::output_welcome(40);
    assert!(row.len() <= 40);
    assert!(row.starts_with('~'));
    // message length 31, padding (40 - 31) / 2 = 4, one column for the tilde
    assert_eq!(row, "~   rusteze editor -- version 0.1.0");
}

#[test]
fn banner_truncates_on_narrow_viewport() {
    assert_eq!(Editor::output_welcome(10), "~rusteze e");
    assert_eq!(Editor::output_welcome(1), "~");
    assert_eq!(Editor::output_welcome(0), "");
    let row = TextView::output_welcome(31);
    assert_eq!(row, "~rusteze editor -- version 0.1.");
    assert_eq!(row.len(), 31);
}

#[test]
fn banner_sits_on_the_one_third_row() {
    let cmds = Editor::draw_tildes(size(40, 3));
    assert_eq!(
        cmds,
        vec![
            TermCommand::ClearLine,
            TermCommand::Print(String::from("~")),
            TermCommand::LineBreak,
            TermCommand::ClearLine,
            TermCommand::Print(String::from("~   rusteze editor -- version 0.1.0")),
            TermCommand::LineBreak,
            TermCommand::ClearLine,
            TermCommand::Print(String::from("~")),
        ]
    );
}

#[test]
fn buffered_lines_replace_placeholders() {
    let view = TextView::new(vec![String::from("hello"), String::from("world")]);
    let cmds = view.render(size(10, 5));
    // row 1 is the one-third row, but the buffer entry there wins: the
    // banner is not drawn a second time
    assert_eq!(
        cmds,
        vec![
            TermCommand::ClearLine,
            TermCommand::Print(String::from("hello")),
            TermCommand::LineBreak,
            TermCommand::ClearLine,
            TermCommand::Print(String::from("world")),
            TermCommand::LineBreak,
            TermCommand::ClearLine,
            TermCommand::Print(String::from("~")),
            TermCommand::LineBreak,
            TermCommand::ClearLine,
            TermCommand::Print(String::from("~")),
            TermCommand::LineBreak,
            TermCommand::ClearLine,
            TermCommand::Print(String::from("~")),
        ]
    );
}

#[test]
fn zero_sized_viewport_renders_nothing() {
    let view = TextView::default();
    assert_eq!(view.render(size(0, 24)), vec![]);
    assert_eq!(view.render(size(80, 0)), vec![]);
    assert_eq!(Editor::draw_tildes(size(0, 0)), vec![]);
}

#[test]
fn empty_row_placeholder_is_a_tilde() {
    assert_eq!(Editor::draw_empty_row(), TermCommand::Print(String::from("~")));
    assert_eq!(TextView::draw_empty_row(), TermCommand::Print(String::from("~")));
}

#[test]
fn live_frame_repositions_and_shows_the_cursor() {
    let e = Editor { exit_token: false, loc: rusteze::editor::Location { x: 5, y: 7 }, };
    let cmds = e.refresh_shell(size(80, 24));
    assert_eq!(cmds[0], TermCommand::HideCursor);
    assert_eq!(cmds[1], TermCommand::MoveTo(Position { col: 0, row: 0 }));
    let n = cmds.len();
    assert_eq!(cmds[n - 3], TermCommand::MoveTo(Position { col: 5, row: 7 }));
    assert_eq!(cmds[n - 2], TermCommand::ShowCursor);
    assert_eq!(cmds[n - 1], TermCommand::Flush);
    assert_eq!(breaks(&cmds), 23);
    assert_eq!(prints(&cmds), 24);
}
