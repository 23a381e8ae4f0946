//! Row rendering: one cleared row per viewport line, holding a buffered
//! text line where one exists, the welcome banner on the one-third row
//! otherwise, and a bare tilde everywhere else, with a line break after
//! every row except the last.

use vstd::prelude::*;

use crate::banner;
use crate::terminal::{cmd_models, CommandModel, TermCommand, ViewportSize};

verus! {

/// The text drawn on row `r`: the buffered line where one exists, the
/// welcome banner on the one-third row, a bare tilde everywhere else.
pub open spec fn row_text(lines: Seq<Seq<char>>, r: nat, size: ViewportSize) -> Seq<char> {
    if r < lines.len() {
        lines[r as int]
    } else if r == size.height / 3 {
        banner::banner_row(size.width as nat)
    } else {
        seq!['~']
    }
}

/// The commands that draw row `r`: clear it, print its text, and end it
/// with a line break unless it is the last row.
pub open spec fn row_cmds(lines: Seq<Seq<char>>, r: nat, size: ViewportSize) -> Seq<
    CommandModel,
> {
    seq![CommandModel::ClearLine, CommandModel::Print(row_text(lines, r, size))] + if r + 1
        < size.height {
        seq![CommandModel::LineBreak]
    } else {
        Seq::empty()
    }
}

/// The commands that draw rows `0` through `n - 1`, in order.
pub open spec fn rows_cmds(lines: Seq<Seq<char>>, size: ViewportSize, n: nat) -> Seq<
    CommandModel,
>
    decreases n,
{
    if n == 0 {
        Seq::empty()
    } else {
        rows_cmds(lines, size, (n - 1) as nat) + row_cmds(lines, (n - 1) as nat, size)
    }
}

/// A whole row redraw: every row of the viewport, or nothing at all when
/// the viewport has no rows or no columns.
pub open spec fn render_model(lines: Seq<Seq<char>>, size: ViewportSize) -> Seq<CommandModel> {
    if size.height == 0 || size.width == 0 {
        Seq::empty()
    } else {
        rows_cmds(lines, size, size.height as nat)
    }
}

/// Draws every row of the viewport against the given buffered lines.
pub fn draw_rows(lines: &Vec<String>, size: ViewportSize) -> (cmds: Vec<TermCommand>)
    ensures
        cmd_models(cmds@) == render_model(lines.deep_view(), size),
{
    let mut cmds: Vec<TermCommand> = Vec::new();
    if size.height == 0 || size.width == 0 {
        proof {
            assert(cmd_models(cmds@) =~= render_model(lines.deep_view(), size));
        }
        return cmds;
    }
    let height = size.height;
    let mut cur: usize = 0;
    proof {
        assert(cmd_models(cmds@) =~= rows_cmds(lines.deep_view(), size, 0));
    }
    while cur < height
        invariant
            cur <= height,
            height == size.height,
            size.width > 0,
            cmd_models(cmds@) == rows_cmds(lines.deep_view(), size, cur as nat),
        decreases height - cur,
    {
        cmds.push(TermCommand::ClearLine);
        if cur < lines.len() {
            let line = lines[cur].clone();
            proof {
                assert(line@ == lines.deep_view()[cur as int]);
            }
            cmds.push(TermCommand::Print(line));
        } else if cur == height / 3 {
            cmds.push(TermCommand::Print(banner::output_welcome(size.width)));
        } else {
            let tilde = String::from_str("~");
            proof {
                reveal_strlit("~");
                assert(tilde@ =~= seq!['~']);
            }
            cmds.push(TermCommand::Print(tilde));
        }
        if cur + 1 < height {
            cmds.push(TermCommand::LineBreak);
        }
        proof {
            assert(cmd_models(cmds@) =~= rows_cmds(lines.deep_view(), size, (cur + 1) as nat));
        }
        cur = cur + 1;
    }
    cmds
}

/// How many line breaks a command sequence emits.
pub open spec fn count_line_breaks(s: Seq<CommandModel>) -> nat
    decreases s.len(),
{
    if s.len() == 0 {
        0
    } else {
        count_line_breaks(s.drop_last()) + if s.last() is LineBreak {
            1nat
        } else {
            0nat
        }
    }
}

/// How many rows of text a command sequence prints.
pub open spec fn count_prints(s: Seq<CommandModel>) -> nat
    decreases s.len(),
{
    if s.len() == 0 {
        0
    } else {
        count_prints(s.drop_last()) + if s.last() is Print {
            1nat
        } else {
            0nat
        }
    }
}

/// Both counts distribute over concatenation.
proof fn lemma_counts_add(a: Seq<CommandModel>, b: Seq<CommandModel>)
    ensures
        count_line_breaks(a + b) == count_line_breaks(a) + count_line_breaks(b),
        count_prints(a + b) == count_prints(a) + count_prints(b),
    decreases b.len(),
{
    if b.len() == 0 {
        assert(a + b =~= a);
    } else {
        lemma_counts_add(a, b.drop_last());
        assert((a + b).drop_last() =~= a + b.drop_last());
        assert((a + b).last() == b.last());
    }
}

/// One row prints exactly one piece of text and emits a line break exactly
/// when it is not the last row.
proof fn lemma_row_counts(lines: Seq<Seq<char>>, r: nat, size: ViewportSize)
    ensures
        count_prints(row_cmds(lines, r, size)) == 1,
        count_line_breaks(row_cmds(lines, r, size)) == if r + 1 < size.height {
            1nat
        } else {
            0nat
        },
{
    let head = seq![
        CommandModel::ClearLine,
        CommandModel::Print(row_text(lines, r, size)),
    ];
    let single = seq![CommandModel::ClearLine];
    assert(count_prints(Seq::<CommandModel>::empty()) == 0);
    assert(count_line_breaks(Seq::<CommandModel>::empty()) == 0);
    assert(single.drop_last() =~= Seq::<CommandModel>::empty());
    assert(count_prints(single) == 0);
    assert(count_line_breaks(single) == 0);
    assert(head.drop_last() =~= single);
    assert(head.last() == CommandModel::Print(row_text(lines, r, size)));
    assert(count_prints(head) == 1);
    assert(count_line_breaks(head) == 0);
    if r + 1 < size.height {
        let s = row_cmds(lines, r, size);
        assert(s.drop_last() =~= head);
        assert(s.last() == CommandModel::LineBreak);
        assert(count_prints(s) == 1);
        assert(count_line_breaks(s) == 1);
    } else {
        assert(row_cmds(lines, r, size) =~= head);
    }
}

/// Rows `0` through `n - 1` print `n` texts, and all but the last row of
/// the viewport end with a line break.
proof fn lemma_rows_counts(lines: Seq<Seq<char>>, size: ViewportSize, n: nat)
    requires
        n <= size.height,
    ensures
        count_prints(rows_cmds(lines, size, n)) == n,
        n < size.height ==> count_line_breaks(rows_cmds(lines, size, n)) == n,
        n == size.height && n > 0 ==> count_line_breaks(rows_cmds(lines, size, n)) == n - 1,
    decreases n,
{
    if n > 0 {
        lemma_rows_counts(lines, size, (n - 1) as nat);
        lemma_counts_add(rows_cmds(lines, size, (n - 1) as nat), row_cmds(lines, (n - 1) as nat, size));
        lemma_row_counts(lines, (n - 1) as nat, size);
    }
}

/// Row emission: a full redraw of a viewport with rows and columns prints
/// exactly one text per row and exactly one line break fewer than it has
/// rows.
pub proof fn lemma_row_emission(lines: Seq<Seq<char>>, size: ViewportSize)
    requires
        size.height > 0,
        size.width > 0,
    ensures
        count_prints(render_model(lines, size)) == size.height,
        count_line_breaks(render_model(lines, size)) == size.height - 1,
{
    lemma_rows_counts(lines, size, size.height as nat);
}

} // verus!
