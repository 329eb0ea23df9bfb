use vstd::prelude::*;

verus! {

/// The text split at every `'\n'`: one more piece than there are newlines.
pub open spec fn split_newlines(s: Seq<char>) -> Seq<Seq<char>>
    decreases s.len(),
{
    if s.len() == 0 {
        seq![Seq::empty()]
    } else {
        let p = split_newlines(s.drop_last());
        if s.last() == '\n' {
            p.push(Seq::empty())
        } else {
            p.update(p.len() - 1, p.last().push(s.last()))
        }
    }
}

/// A line without the `'\r'` of a `"\r\n"` ending.
pub open spec fn strip_cr(l: Seq<char>) -> Seq<char> {
    if l.len() > 0 && l.last() == '\r' {
        l.drop_last()
    } else {
        l
    }
}

/// The lines of a text: split at `"\n"` or `"\r\n"`, the endings left out,
/// and no empty line after a final ending.
pub open spec fn lines_of(s: Seq<char>) -> Seq<Seq<char>> {
    let p = split_newlines(s);
    let n = if p.last().len() == 0 { p.len() - 1 } else { p.len() as int };
    Seq::new(n as nat, |i: int| if i < p.len() - 1 { strip_cr(p[i]) } else { p[i] })
}

/// Relies on `str::lines`: the lines of the text, split at `"\n"` or
/// `"\r\n"`, without their endings, with no empty line after a final ending.
#[verifier::external_body]
fn split_lines(s: &str) -> (r: Vec<String>)
    ensures
        r@.len() == lines_of(s@).len(),
        forall|i: int| 0 <= i < r@.len() ==> #[trigger] r@[i]@ == lines_of(s@)[i],
{
    s.lines().map(String::from).collect()
}

/// One drawing command sent to the terminal.
pub enum DrawOp {
    /// Clear the whole screen.
    ClearAll,
    /// Put the cursor at a column and a row.
    MoveTo(u16, u16),
    /// Put the cursor at the start of the next row.
    MoveToNextLine,
    /// Write text at the cursor.
    Print(String),
}

/// Whether the command writes exactly this text.
pub open spec fn prints(op: DrawOp, text: Seq<char>) -> bool {
    match op {
        DrawOp::Print(s) => s@ == text,
        _ => false,
    }
}

/// The text written on the first row: the first line, or nothing.
pub open spec fn first_row(lines: Seq<Seq<char>>) -> Seq<char> {
    if lines.len() == 0 { Seq::empty() } else { lines[0] }
}

/// Whether `ops` repaints the screen with these lines: clear, move to the
/// top-left corner, write the first line (or nothing), then for each further
/// line move to the start of the next row and write it.
pub open spec fn repaints(ops: Seq<DrawOp>, lines: Seq<Seq<char>>) -> bool {
    let rows = if lines.len() == 0 { 1 } else { lines.len() as int };
    &&& ops.len() == 1 + 2 * rows
    &&& ops[0] is ClearAll
    &&& ops[1] == DrawOp::MoveTo(0, 0)
    &&& prints(ops[2], first_row(lines))
    &&& forall|k: int| 1 <= k < lines.len() ==>
        (#[trigger] ops[2 * k + 1]) is MoveToNextLine && prints(ops[2 * k + 2], lines[k])
}

/// The commands that draw a text on a cleared screen, one line per row.
pub fn draw_commands(data: &str) -> (r: Vec<DrawOp>)
    ensures
        repaints(r@, lines_of(data@)),
{
    let lines = split_lines(data);
    let mut ops: Vec<DrawOp> = Vec::new();
    ops.push(DrawOp::ClearAll);
    ops.push(DrawOp::MoveTo(0, 0));
    if lines.len() == 0 {
        ops.push(DrawOp::Print(String::new()));
    } else {
        ops.push(DrawOp::Print(lines[0].clone()));
    }
    let mut i: usize = 1;
    while i < lines.len()
        invariant
            1 <= i <= lines@.len() || (lines@.len() == 0 && i == 1),
            lines@.len() == lines_of(data@).len(),
            forall|j: int| 0 <= j < lines@.len() ==> #[trigger] lines@[j]@ == lines_of(data@)[j],
            ops@.len() == 2 * i + 1,
            ops@[0] is ClearAll,
            ops@[1] == DrawOp::MoveTo(0, 0),
            prints(ops@[2], first_row(lines_of(data@))),
            forall|k: int| 1 <= k < i ==>
                (#[trigger] ops@[2 * k + 1]) is MoveToNextLine && prints(ops@[2 * k + 2], lines_of(data@)[k]),
        decreases lines@.len() - i,
    {
        ops.push(DrawOp::MoveToNextLine);
        ops.push(DrawOp::Print(lines[i].clone()));
        i = i + 1;
    }
    ops
}

} // verus!
