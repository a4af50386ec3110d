//! The message region above the input box: where committed lines are
//! written, and the wrap back to the top when it is full.

use vstd::prelude::*;
use crate::screen::{Draw, DrawView, draws_view, prints_of};
use crate::text::{copy_string, push_char, push_repeated, repeated};

verus! {

/// The geometry of the screen and the line of the last message. Geometry is
/// taken once, from the terminal's size at start.
pub struct RegionView {
    pub cols: u16,
    pub rows: u16,
    /// The row where text is typed, two rows above the bottom.
    pub input_line: u16,
    /// The row of the last message written; 0 before any.
    pub cursor_line: u16,
}

/// What holds of every region: the screen has room for a frame and for the
/// input line, and the message line stays at least two rows above the input
/// line.
pub open spec fn region_ok(v: RegionView) -> bool {
    &&& v.cols >= 3
    &&& v.rows >= 4
    &&& v.input_line == v.rows - 2
    &&& v.cursor_line <= v.input_line - 2
}

/// The message region.
pub struct DisplayRegion {
    cols: u16,
    rows: u16,
    input_line: u16,
    cursor_line: u16,
}

impl View for DisplayRegion {
    type V = RegionView;

    closed spec fn view(&self) -> RegionView {
        RegionView {
            cols: self.cols,
            rows: self.rows,
            input_line: self.input_line,
            cursor_line: self.cursor_line,
        }
    }
}

/// A frame's top or bottom edge, `w` dashes wide inside its corners.
pub open spec fn frame_edge(w: nat) -> Seq<char> {
    seq!['+'] + repeated('-', w) + seq!['+', '\n']
}

/// A frame's side line, `w` blanks wide inside its bars.
pub open spec fn frame_side(w: nat) -> Seq<char> {
    seq!['|'] + repeated(' ', w) + seq!['|', '\n']
}

/// What is drawn on an empty screen at start: the screen cleared, and the top
/// edge and one side line of the input box.
pub open spec fn opening_of(v: RegionView) -> Seq<DrawView> {
    seq![
        DrawView::ClearAll,
        DrawView::Print(frame_edge((v.cols - 3) as nat)),
        DrawView::Print(frame_side((v.cols - 3) as nat)),
    ]
}

/// Whether the next commit finds the region full.
pub open spec fn is_full(v: RegionView) -> bool {
    v.cursor_line >= v.input_line - 2
}

/// The region after a commit: the message line moves down one row, or, when
/// the region is full, back to row 0.
pub open spec fn after_commit(v: RegionView) -> RegionView {
    if is_full(v) {
        RegionView { cursor_line: 0, ..v }
    } else {
        RegionView { cursor_line: (v.cursor_line + 1) as u16, ..v }
    }
}

/// What a full region draws before the message: the screen cleared and the
/// box drawn afresh from the top left corner.
pub open spec fn redraw_frame_of(v: RegionView) -> Seq<DrawView> {
    seq![
        DrawView::ClearAll,
        DrawView::MoveTo(0, 0),
        DrawView::Print(frame_edge((v.cols - 2) as nat)),
        DrawView::Print(frame_side((v.cols - 2) as nat)),
        DrawView::Print(frame_edge((v.cols - 2) as nat)),
    ]
}

/// What a commit draws: the box afresh when the region is full, then the text
/// at column 1 of the new message line, then the input line cleared with the
/// write position at its column 1.
pub open spec fn commit_draws_of(v: RegionView, text: Seq<char>) -> Seq<DrawView> {
    let w = after_commit(v);
    (if is_full(v) {
        redraw_frame_of(v)
    } else {
        Seq::empty()
    }) + seq![
        DrawView::MoveTo(1, w.cursor_line),
        DrawView::Print(text),
        DrawView::MoveTo(1, v.input_line),
        DrawView::ClearLine,
    ]
}

/// The region after `n` commits.
pub open spec fn after_commits(v: RegionView, n: nat) -> RegionView
    decreases n,
{
    if n == 0 {
        v
    } else {
        after_commit(after_commits(v, (n - 1) as nat))
    }
}

/// A frame line: `corner`, `w` times `fill`, `corner`, and a line break.
fn frame_line(corner: char, fill: char, w: u16) -> (r: String)
    ensures
        r@ == seq![corner] + repeated(fill, w as nat) + seq![corner, '\n'],
{
    let mut r = String::new();
    push_char(&mut r, corner);
    push_repeated(&mut r, fill, w as usize);
    push_char(&mut r, corner);
    push_char(&mut r, '\n');
    assert(r@ =~= seq![corner] + repeated(fill, w as nat) + seq![corner, '\n']);
    r
}

impl DisplayRegion {
    /// The region of a screen `cols` wide and `rows` high, with no message
    /// yet; none where the screen has no room for the frame and input line.
    pub fn new(cols: u16, rows: u16) -> (r: Option<DisplayRegion>)
        ensures
            r is Some <==> cols >= 3 && rows >= 4,
            r is Some ==> r->0@ == (RegionView {
                cols,
                rows,
                input_line: (rows - 2) as u16,
                cursor_line: 0,
            }),
            r is Some ==> region_ok(r->0@),
    {
        if cols >= 3 && rows >= 4 {
            Some(DisplayRegion { cols, rows, input_line: rows - 2, cursor_line: 0 })
        } else {
            None
        }
    }

    /// Whether the region is in order.
    pub closed spec fn wf(&self) -> bool {
        region_ok(self@)
    }

    /// The row where text is typed.
    pub fn input_line(&self) -> (r: u16)
        ensures
            r == self@.input_line,
    {
        self.input_line
    }

    /// The row of the last message written.
    pub fn cursor_line(&self) -> (r: u16)
        ensures
            r == self@.cursor_line,
    {
        self.cursor_line
    }

    /// The screen's width.
    pub fn cols(&self) -> (r: u16)
        ensures
            r == self@.cols,
    {
        self.cols
    }

    /// The screen's height.
    pub fn rows(&self) -> (r: u16)
        ensures
            r == self@.rows,
    {
        self.rows
    }

    /// What is drawn at start: the screen cleared and the top of the box.
    pub fn opening(&self) -> (ops: Vec<Draw>)
        requires
            region_ok(self@),
        ensures
            draws_view(ops@) == opening_of(self@),
    {
        let w = self.cols - 3;
        let ops = vec![Draw::ClearAll, Draw::Print(frame_line('+', '-', w)), Draw::Print(frame_line('|', ' ', w))];
        assert(draws_view(ops@) =~= opening_of(self@));
        ops
    }

    /// Writes a committed line into the region: the message line moves down
    /// one row, or, when the region is full, the screen is cleared, the box
    /// drawn afresh and the message line goes back to row 0; the text is then
    /// written at column 1 of the message line and the input line cleared.
    pub fn commit_line(&mut self, text: &String) -> (ops: Vec<Draw>)
        requires
            region_ok(old(self)@),
        ensures
            final(self)@ == after_commit(old(self)@),
            region_ok(final(self)@),
            draws_view(ops@) == commit_draws_of(old(self)@, text@),
    {
        let ghost v = self@;
        let mut ops: Vec<Draw> = Vec::new();
        if self.cursor_line < self.input_line - 2 {
            self.cursor_line = self.cursor_line + 1;
        } else {
            let w = self.cols - 2;
            ops.push(Draw::ClearAll);
            ops.push(Draw::MoveTo(0, 0));
            ops.push(Draw::Print(frame_line('+', '-', w)));
            ops.push(Draw::Print(frame_line('|', ' ', w)));
            ops.push(Draw::Print(frame_line('+', '-', w)));
            self.cursor_line = 0;
        }
        ops.push(Draw::MoveTo(1, self.cursor_line));
        ops.push(Draw::Print(copy_string(text)));
        ops.push(Draw::MoveTo(1, self.input_line));
        ops.push(Draw::ClearLine);
        assert(draws_view(ops@) =~= commit_draws_of(v, text@));
        ops
    }
}

/// A commit writes its text once, at column 1 of a row above the input box
/// that depends on the region alone: the message line after the commit. The
/// frame that a full region draws first holds no such line.
pub proof fn lemma_commit_writes_once(v: RegionView, text: Seq<char>)
    requires
        region_ok(v),
        text != frame_edge((v.cols - 2) as nat),
        text != frame_side((v.cols - 2) as nat),
    ensures
        ({
            let ops = commit_draws_of(v, text);
            let k = ops.len() - 3;
            &&& prints_of(ops, text) == set![k]
            &&& ops[k - 1] == DrawView::MoveTo(1, after_commit(v).cursor_line)
            &&& after_commit(v).cursor_line < v.input_line - 1
        }),
{
    let ops = commit_draws_of(v, text);
    let k = ops.len() - 3;
    assert(prints_of(ops, text) =~= set![k]) by {
        assert forall|i: int| 0 <= i < ops.len() && ops[i] == DrawView::Print(text) implies i == k by {
            if is_full(v) {
                assert(i >= 5);
            }
        }
    }
}

/// From an empty region, each of the first `input_line - 2` commits moves the
/// message line down one row; after them the region is full, and the next
/// commit draws the box afresh and puts the message line back at row 0.
pub proof fn lemma_wrap_boundary(v: RegionView)
    requires
        region_ok(v),
        v.cursor_line == 0,
    ensures
        forall|n: nat| n <= v.input_line - 2 ==> #[trigger] after_commits(v, n).cursor_line == n,
        is_full(after_commits(v, (v.input_line - 2) as nat)),
        forall|n: nat| n < v.input_line - 2 ==> !is_full(#[trigger] after_commits(v, n)),
        after_commit(after_commits(v, (v.input_line - 2) as nat)).cursor_line == 0,
        commit_draws_of(after_commits(v, (v.input_line - 2) as nat), Seq::empty()).take(5)
            == redraw_frame_of(v),
{
    assert forall|n: nat| n <= v.input_line - 2 implies #[trigger] after_commits(v, n).cursor_line
        == n && after_commits(v, n).input_line == v.input_line && after_commits(v, n).cols
        == v.cols by {
        lemma_commits_count(v, n);
    }
    let m = (v.input_line - 2) as nat;
    let full = after_commits(v, m);
    assert(full.cursor_line == m);
    assert(commit_draws_of(full, Seq::empty()).take(5) =~= redraw_frame_of(v));
}

/// Commits from row 0 count rows, while the region has room.
proof fn lemma_commits_count(v: RegionView, n: nat)
    requires
        region_ok(v),
        v.cursor_line == 0,
        n <= v.input_line - 2,
    ensures
        after_commits(v, n) == (RegionView { cursor_line: n as u16, ..v }),
    decreases n,
{
    if n > 0 {
        lemma_commits_count(v, (n - 1) as nat);
    }
}

} // verus!
